//! Pure classification of a freshly created account.

use vstd::prelude::*;

verus! {

/// Where a freshly created account is placed.
///
/// The very first account of a run is the `FirstAccount`: it joins the
/// miners and becomes the node's mining author. Every later account is a
/// `Miner` or a `User`.
#[derive(Clone, Copy, PartialEq, Eq, Structural, Debug)]
pub enum Placement {
    FirstAccount,
    Miner,
    User,
}

/// The placement that a classification decision yields: the first account is
/// always `FirstAccount`; afterwards a fresh draw below the miner chance
/// makes a `Miner`, anything else a `User`.
pub open spec fn placement_of(first: bool, draw: u32, miner_chance: u32) -> Placement {
    if first {
        Placement::FirstAccount
    } else if draw < miner_chance {
        Placement::Miner
    } else {
        Placement::User
    }
}

/// Classifies one freshly created account.
///
/// `first` says whether no account has been created yet in this run; `draw`
/// is a fresh uniform draw, taken independently of the draw that triggered
/// the creation, so that creation frequency and miner proportion stay
/// independently tunable.
pub fn classify(first: bool, draw: u32, miner_chance: u32) -> (p: Placement)
    ensures
        p == placement_of(first, draw, miner_chance),
{
    if first {
        Placement::FirstAccount
    } else if draw < miner_chance {
        Placement::Miner
    } else {
        Placement::User
    }
}

} // verus!
