//! A tick-driven simulation engine for exercising a blockchain node under
//! randomized, time-varying load.
//!
//! The library holds the decision logic of the simulation: whether a tick
//! creates a synthetic account, how accounts are classified into miners and
//! users, and how a run advances from process start-up through ticking to
//! shutdown. The surrounding binary performs the outside work (process
//! control, key generation and storage, the RPC call, the clock and the
//! sleep between ticks) and feeds the results back in as plain values.

use vstd::prelude::*;

pub mod account;
pub mod actions;
pub mod classify;
pub mod rng;
pub mod run;
pub mod sim;

verus! {

/// Probabilities are expressed in parts per million: an event with chance
/// `c` fires on a uniform draw `d` in `0 .. SCALE` exactly when `d < c`.
pub const SCALE: u32 = 1_000_000;

/// Default chance that a tick creates an account (0.025).
pub const DEFAULT_CREATE_CHANCE: u32 = 25_000;

/// Default chance that a created account is a miner (0.4).
pub const DEFAULT_MINER_CHANCE: u32 = 400_000;

/// Default length of a generated account password, in characters.
pub const DEFAULT_PASSWORD_LEN: usize = 20;

/// Default pause between two ticks, in milliseconds.
pub const DEFAULT_TICK_INTERVAL_MS: u64 = 500;

/// Decides whether a probabilistic event fires for a given draw.
pub fn event_fires(draw: u32, chance: u32) -> (fires: bool)
    ensures
        fires == (draw < chance),
{
    draw < chance
}

} // verus!
