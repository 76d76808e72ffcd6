//! The action log: an ordered record of simulated actions directed at the
//! node, each stamped with the time elapsed since the run started.
//!
//! Nothing appends to the log yet — transaction dispatch is the planned
//! producer — but the engine carries it with a defined contract so that the
//! field is live state rather than dead code.

use vstd::prelude::*;

verus! {

/// One simulated action directed at the node under test.
#[derive(Clone, Copy, PartialEq, Eq, Structural, Debug)]
pub enum Action {
    DispatchTransaction,
}

/// An ordered sequence of `(elapsed milliseconds, action)` pairs, in the
/// order the actions were recorded.
pub struct ActionLog {
    pub entries: Vec<(u64, Action)>,
}

impl ActionLog {
    /// A log with no entries.
    pub fn empty() -> (log: ActionLog)
        ensures
            log.entries@.len() == 0,
    {
        ActionLog { entries: Vec::new() }
    }

    /// Appends one action, stamped with the elapsed time at which it fired.
    pub fn append(&mut self, elapsed_ms: u64, action: Action)
        ensures
            final(self).entries@ == old(self).entries@.push((elapsed_ms, action)),
    {
        self.entries.push((elapsed_ms, action));
    }

    /// How many actions have been recorded.
    pub fn len(&self) -> (n: usize)
        ensures
            n == self.entries@.len(),
    {
        self.entries.len()
    }
}

} // verus!
