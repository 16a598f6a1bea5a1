//! The records that a reward computation returns.

use vstd::prelude::*;

verus! {

/// What an ideally behaving validator with a given effective balance earns
/// for each flag.
#[derive(Clone, Copy, Debug, PartialEq, Eq, Structural)]
pub struct IdealAttestationReward {
    /// The effective balance, in whole increments.
    pub effective_balance: u64,
    pub head: u64,
    pub target: u64,
    pub source: u64,
}

/// What one validator earned (positive) or lost (negative) for each flag.
#[derive(Clone, Copy, Debug, PartialEq, Eq, Structural)]
pub struct TotalAttestationReward {
    pub validator_index: u64,
    pub head: i64,
    pub target: i64,
    pub source: i64,
    /// The protocol no longer rewards inclusion delay: always zero.
    pub inclusion_delay: u64,
}

/// The attestation rewards of one epoch: the ideal rewards by effective
/// balance, and the rewards of the requested validators.
#[derive(Clone, Debug, PartialEq, Eq)]
pub struct StandardAttestationRewards {
    pub ideal_rewards: Vec<IdealAttestationReward>,
    pub total_rewards: Vec<TotalAttestationReward>,
}

/// What one sync-committee member earned for one block.
#[derive(Clone, Copy, Debug, PartialEq, Eq, Structural)]
pub struct SyncCommitteeReward {
    pub validator_index: u64,
    pub reward: i64,
}

} // verus!
