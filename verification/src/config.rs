//! The protocol constants that every reward computation is given.

use vstd::prelude::*;

verus! {

/// The largest number of whole increments an effective balance can hold.
pub const MAX_BALANCE_INCREMENTS: u64 = 32;

/// One of the three ways in which an attestation can be correct.
#[derive(Clone, Copy, Debug, PartialEq, Eq, Structural)]
pub enum Flag {
    Source,
    Target,
    Head,
}

/// Protocol constants, handed to each computation rather than read from
/// ambient state, so that several protocol versions can be scored side by
/// side.
#[derive(Clone, Copy, Debug, PartialEq, Eq, Structural)]
pub struct RewardConfig {
    /// The size of one effective-balance increment, in base units.
    pub effective_balance_increment: u64,
    /// The denominator that the three flag weights are fractions of.
    pub weight_denominator: u64,
    pub source_weight: u64,
    pub target_weight: u64,
    pub head_weight: u64,
}

impl RewardConfig {
    /// The weight of a flag: a total mapping from the closed set of flags.
    pub open spec fn weight(self, flag: Flag) -> u64 {
        match flag {
            Flag::Source => self.source_weight,
            Flag::Target => self.target_weight,
            Flag::Head => self.head_weight,
        }
    }

    /// The weight of `flag`.
    pub fn flag_weight(&self, flag: Flag) -> (w: u64)
        ensures
            w == self.weight(flag),
    {
        match flag {
            Flag::Source => self.source_weight,
            Flag::Target => self.target_weight,
            Flag::Head => self.head_weight,
        }
    }
}

} // verus!
