//! The engine's source of uniform random draws.
//!
//! Every probabilistic decision of the simulation consumes one draw in
//! `0 .. SCALE`. A live run reads the operating system's entropy source; a
//! test injects a scripted list of draws so that each decision is
//! deterministic.

use vstd::prelude::*;

use crate::SCALE;

verus! {

/// Reads one word from the operating system's random number generator.
///
/// Relies on `rand::rngs::OsRng` (rand_core's `OsRng`) and its
/// `RngCore::next_u32`: the word comes from the OS generator, so nothing can
/// be promised of its value. The call aborts the process only if the OS
/// entropy source itself is unavailable.
#[verifier::external_body]
fn os_random_u32() -> u32 {
    <rand::rngs::OsRng as rand::RngCore>::next_u32(&mut rand::rngs::OsRng)
}

/// A source of uniform draws in `0 .. SCALE`.
///
/// With `script == None` the source reads OS entropy, as a live run does.
/// With a script it replays the listed draws in order (each reduced modulo
/// `SCALE`); once the script is exhausted it yields `SCALE - 1`, the draw on
/// which no event fires.
pub struct DrawSource {
    pub script: Option<Vec<u32>>,
    pub next_index: usize,
}

impl DrawSource {
    /// The value the next call of `next_draw` yields, for a scripted source.
    pub open spec fn scripted_draw(self) -> u32
        recommends
            self.script is Some,
    {
        match self.script {
            Option::Some(s) => {
                if self.next_index < s@.len() {
                    (s@[self.next_index as int] as int % SCALE as int) as u32
                } else {
                    (SCALE - 1) as u32
                }
            },
            Option::None => 0u32,
        }
    }

    /// The source after one draw has been taken.
    pub open spec fn advanced(self) -> DrawSource {
        match self.script {
            Option::Some(s) => {
                if self.next_index < s@.len() {
                    DrawSource { next_index: (self.next_index + 1) as usize, ..self }
                } else {
                    self
                }
            },
            Option::None => self,
        }
    }

    /// The source after `n` draws have been taken.
    pub open spec fn advanced_by(self, n: nat) -> DrawSource
        decreases n,
    {
        if n == 0 {
            self
        } else {
            self.advanced_by((n - 1) as nat).advanced()
        }
    }

    /// A source backed by the operating system's entropy.
    pub fn from_entropy() -> (src: DrawSource)
        ensures
            src.script is None,
    {
        DrawSource { script: None, next_index: 0 }
    }

    /// A source that replays the given draws in order.
    pub fn scripted(draws: Vec<u32>) -> (src: DrawSource)
        ensures
            src.script == Option::Some(draws),
            src.next_index == 0,
    {
        DrawSource { script: Some(draws), next_index: 0 }
    }

    /// Takes one uniform draw in `0 .. SCALE`.
    pub fn next_draw(&mut self) -> (d: u32)
        ensures
            d < SCALE,
            *final(self) == old(self).advanced(),
            old(self).script is Some ==> d == old(self).scripted_draw(),
    {
        match &self.script {
            Option::None => {
                let w = os_random_u32();
                w % SCALE
            },
            Option::Some(s) => {
                if self.next_index < s.len() {
                    let d = s[self.next_index] % SCALE;
                    self.next_index = self.next_index + 1;
                    d
                } else {
                    SCALE - 1
                }
            },
        }
    }
}

/// The lowercase ASCII byte that one draw maps to.
pub open spec fn lower_byte(d: u32) -> u8 {
    (97 + (d as int % 26)) as u8
}

/// The password a scripted source yields: one lowercase byte per draw, in
/// draw order.
pub open spec fn scripted_password(src: DrawSource, n: nat) -> Seq<u8>
    decreases n,
{
    if n == 0 {
        Seq::empty()
    } else {
        scripted_password(src, (n - 1) as nat).push(
            lower_byte(src.advanced_by((n - 1) as nat).scripted_draw()),
        )
    }
}

/// Taking draws never changes where they come from.
pub proof fn lemma_advanced_by_keeps_script(src: DrawSource, n: nat)
    ensures
        src.advanced_by(n).script == src.script,
    decreases n,
{
    if n > 0 {
        lemma_advanced_by_keeps_script(src, (n - 1) as nat);
    }
}

/// Generates a password of `len` random lowercase ASCII bytes, one draw per
/// byte.
pub fn random_lowercase_bytes(src: &mut DrawSource, len: usize) -> (pw: Vec<u8>)
    ensures
        pw@.len() == len,
        forall|i: int| 0 <= i < len ==> 97 <= #[trigger] pw@[i] <= 122,
        *final(src) == old(src).advanced_by(len as nat),
        old(src).script is Some ==> pw@ == scripted_password(*old(src), len as nat),
{
    let mut pw: Vec<u8> = Vec::new();
    let mut i: usize = 0;
    while i < len
        invariant
            i <= len,
            pw@.len() == i,
            forall|k: int| 0 <= k < i ==> 97 <= #[trigger] pw@[k] <= 122,
            *src == old(src).advanced_by(i as nat),
            old(src).script is Some ==> pw@ == scripted_password(*old(src), i as nat),
        decreases len - i,
    {
        proof {
            lemma_advanced_by_keeps_script(*old(src), i as nat);
        }
        let d = src.next_draw();
        let r: u32 = d % 26;
        let b: u8 = 97u8 + (r as u8);
        pw.push(b);
        i = i + 1;
    }
    pw
}

} // verus!
