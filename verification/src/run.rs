//! The run loop as a state machine.
//!
//! A run brackets the tick loop with the lifecycle of two external
//! processes: the node under test and the mining helper. The machine tells
//! its driver what to do next (`next_action`) and is advanced by feeding
//! back what happened (`step`). The driver performs the outside work —
//! spawning and signalling processes, reading the clock, sleeping between
//! ticks — and the machine decides.
//!
//! Every fatal condition (a process that fails to start, a tick whose
//! persistence or set-author call failed) sends the run to `Stopping`, so
//! that both processes are signalled to stop before the run ends, however
//! it ended. A cancellation event, checked once per tick boundary, stops
//! the run the same way without marking it failed.

use vstd::prelude::*;

verus! {

/// The phases of one run, in the order a healthy run passes through them.
#[derive(Clone, Copy, PartialEq, Eq, Structural, Debug)]
pub enum Phase {
    /// The node under test is being started.
    StartingNode,
    /// The node runs; the mining helper is being started.
    StartingMiner,
    /// Both processes run; the clock decides whether another tick is due.
    Ticking,
    /// The deadline has not passed; one tick is to be performed.
    TickDue,
    /// The run is over; both processes are to be signalled to stop.
    Stopping,
    /// Terminal: cleanup has been requested, nothing more happens.
    Ended,
}

/// What the driver reports back to the machine.
#[derive(Clone, Copy, PartialEq, Eq, Structural, Debug)]
pub enum RunEvent {
    /// The node process was spawned (`true`) or failed to spawn.
    NodeStarted(bool),
    /// The mining helper was spawned (`true`) or failed to spawn.
    MinerStarted(bool),
    /// The clock was read at a tick boundary: the current time in ms.
    ClockRead(u64),
    /// A tick completed (`true`) or aborted on a fatal collaborator error.
    TickDone(bool),
    /// An operator asked the run to stop early.
    Cancelled,
    /// Both processes have been signalled to stop (best effort).
    ProcessesSignalled,
}

/// What the driver is to do next.
#[derive(Clone, Copy, PartialEq, Eq, Structural, Debug)]
pub enum RunAction {
    StartNode,
    StartMiner,
    ReadClock,
    RunTick,
    StopProcesses,
    Exit,
}

/// The state of one run.
#[derive(Clone, Copy, PartialEq, Eq, Structural, Debug)]
pub struct Run {
    pub phase: Phase,
    /// The wall-clock deadline: no tick begins at or after this time.
    pub end_ms: u64,
    pub node_started: bool,
    pub miner_started: bool,
    /// Whether the run ended on a fatal error rather than its deadline or a
    /// cancellation.
    pub failed: bool,
}

/// The state a run begins in: about to start the node, deadline fixed at
/// `start_ms + duration_ms`.
pub open spec fn run_begun(start_ms: u64, duration_ms: u64) -> Run {
    Run {
        phase: Phase::StartingNode,
        end_ms: (start_ms + duration_ms) as u64,
        node_started: false,
        miner_started: false,
        failed: false,
    }
}

/// The transition relation of the run machine. An event that does not
/// belong to the current phase changes nothing.
pub open spec fn run_step(r: Run, ev: RunEvent) -> Run {
    match (r.phase, ev) {
        (Phase::StartingNode, RunEvent::NodeStarted(ok)) => {
            if ok {
                Run { phase: Phase::StartingMiner, node_started: true, ..r }
            } else {
                Run { phase: Phase::Stopping, failed: true, ..r }
            }
        },
        (Phase::StartingMiner, RunEvent::MinerStarted(ok)) => {
            if ok {
                Run { phase: Phase::Ticking, miner_started: true, ..r }
            } else {
                Run { phase: Phase::Stopping, failed: true, ..r }
            }
        },
        (Phase::Ticking, RunEvent::ClockRead(now_ms)) => {
            if now_ms < r.end_ms {
                Run { phase: Phase::TickDue, ..r }
            } else {
                Run { phase: Phase::Stopping, ..r }
            }
        },
        (Phase::TickDue, RunEvent::TickDone(ok)) => {
            if ok {
                Run { phase: Phase::Ticking, ..r }
            } else {
                Run { phase: Phase::Stopping, failed: true, ..r }
            }
        },
        (Phase::Ticking, RunEvent::Cancelled) => Run { phase: Phase::Stopping, ..r },
        (Phase::TickDue, RunEvent::Cancelled) => Run { phase: Phase::Stopping, ..r },
        (Phase::Stopping, RunEvent::ProcessesSignalled) => Run { phase: Phase::Ended, ..r },
        _ => r,
    }
}

/// The action each phase asks of the driver.
pub open spec fn action_of(r: Run) -> RunAction {
    match r.phase {
        Phase::StartingNode => RunAction::StartNode,
        Phase::StartingMiner => RunAction::StartMiner,
        Phase::Ticking => RunAction::ReadClock,
        Phase::TickDue => RunAction::RunTick,
        Phase::Stopping => RunAction::StopProcesses,
        Phase::Ended => RunAction::Exit,
    }
}

/// A run that is winding down or over: no further tick can begin.
pub open spec fn halted(r: Run) -> bool {
    r.phase == Phase::Stopping || r.phase == Phase::Ended
}

/// The state after a whole sequence of events, first event first.
pub open spec fn run_trace(r: Run, evs: Seq<RunEvent>) -> Run
    decreases evs.len(),
{
    if evs.len() == 0 {
        r
    } else {
        run_trace(run_step(r, evs[0]), evs.drop_first())
    }
}

impl Run {
    /// Begins a run whose deadline is `start_ms + duration_ms`.
    pub fn begin(start_ms: u64, duration_ms: u64) -> (r: Run)
        requires
            start_ms + duration_ms <= u64::MAX,
        ensures
            r == run_begun(start_ms, duration_ms),
    {
        Run {
            phase: Phase::StartingNode,
            end_ms: start_ms + duration_ms,
            node_started: false,
            miner_started: false,
            failed: false,
        }
    }

    /// Advances the machine by one reported event.
    pub fn step(&mut self, ev: RunEvent)
        ensures
            *final(self) == run_step(*old(self), ev),
    {
        match (self.phase, ev) {
            (Phase::StartingNode, RunEvent::NodeStarted(ok)) => {
                if ok {
                    self.phase = Phase::StartingMiner;
                    self.node_started = true;
                } else {
                    self.phase = Phase::Stopping;
                    self.failed = true;
                }
            },
            (Phase::StartingMiner, RunEvent::MinerStarted(ok)) => {
                if ok {
                    self.phase = Phase::Ticking;
                    self.miner_started = true;
                } else {
                    self.phase = Phase::Stopping;
                    self.failed = true;
                }
            },
            (Phase::Ticking, RunEvent::ClockRead(now_ms)) => {
                if now_ms < self.end_ms {
                    self.phase = Phase::TickDue;
                } else {
                    self.phase = Phase::Stopping;
                }
            },
            (Phase::TickDue, RunEvent::TickDone(ok)) => {
                if ok {
                    self.phase = Phase::Ticking;
                } else {
                    self.phase = Phase::Stopping;
                    self.failed = true;
                }
            },
            (Phase::Ticking, RunEvent::Cancelled) => {
                self.phase = Phase::Stopping;
            },
            (Phase::TickDue, RunEvent::Cancelled) => {
                self.phase = Phase::Stopping;
            },
            (Phase::Stopping, RunEvent::ProcessesSignalled) => {
                self.phase = Phase::Ended;
            },
            _ => {},
        }
    }

    /// What the driver is to do next.
    pub fn next_action(&self) -> (a: RunAction)
        ensures
            a == action_of(*self),
    {
        match self.phase {
            Phase::StartingNode => RunAction::StartNode,
            Phase::StartingMiner => RunAction::StartMiner,
            Phase::Ticking => RunAction::ReadClock,
            Phase::TickDue => RunAction::RunTick,
            Phase::Stopping => RunAction::StopProcesses,
            Phase::Ended => RunAction::Exit,
        }
    }
}

/// Once a run is halted it stays halted, whatever events arrive: no tick
/// ever becomes due again, no process is started any more, and the failure
/// flag is settled.
pub proof fn lemma_halted_run_stays_halted(r: Run, evs: Seq<RunEvent>)
    requires
        halted(r),
    ensures
        halted(run_trace(r, evs)),
        run_trace(r, evs).node_started == r.node_started,
        run_trace(r, evs).miner_started == r.miner_started,
        run_trace(r, evs).failed == r.failed,
    decreases evs.len(),
{
    if evs.len() > 0 {
        lemma_halted_run_stays_halted(run_step(r, evs[0]), evs.drop_first());
    }
}

/// If the node under test fails to start, the mining helper is never
/// started and the scheduler never runs a single tick: whatever events
/// follow, the run only winds down, marked failed.
pub proof fn lemma_node_start_failure_is_contained(
    start_ms: u64,
    duration_ms: u64,
    evs: Seq<RunEvent>,
)
    requires
        start_ms + duration_ms <= u64::MAX,
    ensures
        ({
            let after_failure = run_step(
                run_begun(start_ms, duration_ms),
                RunEvent::NodeStarted(false),
            );
            let later = run_trace(after_failure, evs);
            &&& halted(after_failure)
            &&& after_failure.failed
            &&& !later.miner_started
            &&& !later.node_started
            &&& later.phase != Phase::TickDue
            &&& halted(later)
        }),
{
    let after_failure = run_step(run_begun(start_ms, duration_ms), RunEvent::NodeStarted(false));
    lemma_halted_run_stays_halted(after_failure, evs);
}

/// A fatal tick error halts the run: after a tick reports failure the run
/// is winding down and marked failed.
pub proof fn lemma_tick_failure_halts(r: Run)
    requires
        r.phase == Phase::TickDue,
    ensures
        halted(run_step(r, RunEvent::TickDone(false))),
        run_step(r, RunEvent::TickDone(false)).failed,
{
}

} // verus!
