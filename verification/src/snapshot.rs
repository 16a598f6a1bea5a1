//! Plain-value snapshots of the chain state and of the participation data
//! for the epoch being scored.

use crate::config::Flag;
use vstd::prelude::*;

verus! {

/// What the state records of one validator for the epoch being scored.
#[derive(Clone, Copy, Debug, PartialEq, Eq, Structural)]
pub struct ValidatorStatus {
    /// Whether the validator is eligible for rewards and penalties.
    pub eligible: bool,
    /// The validator's effective balance, in base units.
    pub effective_balance: u64,
}

/// The part of a chain state that reward accounting reads.
#[derive(Clone, Debug)]
pub struct StateSnapshot {
    /// One record per validator of the registry, by validator index.
    pub validators: Vec<ValidatorStatus>,
    /// Whether the chain is in an inactivity leak for the epoch.
    pub in_inactivity_leak: bool,
}

/// The mathematical content of a [`StateSnapshot`].
pub struct StateView {
    pub validators: Seq<ValidatorStatus>,
    pub in_inactivity_leak: bool,
}

impl View for StateSnapshot {
    type V = StateView;

    open spec fn view(&self) -> StateView {
        StateView {
            validators: self.validators@,
            in_inactivity_leak: self.in_inactivity_leak,
        }
    }
}

/// The unslashed validators that attested correctly for one flag.
#[derive(Clone, Debug)]
pub struct FlagParticipation {
    /// The total effective balance of those validators, in base units.
    pub total_balance: u64,
    /// By validator index: whether the validator is one of them. An index
    /// beyond the end is not.
    pub participants: Vec<bool>,
}

/// The mathematical content of a [`FlagParticipation`].
pub struct FlagParticipationView {
    pub total_balance: u64,
    /// The indices of the participating validators.
    pub participants: Set<int>,
}

impl View for FlagParticipation {
    type V = FlagParticipationView;

    open spec fn view(&self) -> FlagParticipationView {
        FlagParticipationView {
            total_balance: self.total_balance,
            participants: Set::new(
                |i: int| 0 <= i < self.participants@.len() && self.participants@[i],
            ),
        }
    }
}

impl FlagParticipation {
    /// Whether validator `index` attested correctly for this flag.
    pub fn contains(&self, index: usize) -> (r: bool)
        ensures
            r == self@.participants.contains(index as int),
    {
        index < self.participants.len() && self.participants[index]
    }
}

/// Participation data for the epoch being scored. A flag without data stands
/// for an epoch that the participation cache no longer holds.
#[derive(Clone, Debug)]
pub struct ParticipationSnapshot {
    pub source: Option<FlagParticipation>,
    pub target: Option<FlagParticipation>,
    pub head: Option<FlagParticipation>,
    /// The total effective balance of the active validators, in base units.
    pub total_active_balance: u64,
    /// The base reward that one increment of effective balance earns.
    pub base_reward_per_increment: u64,
    /// The indices of all eligible validators, in registry order.
    pub eligible_indices: Vec<usize>,
}

/// The mathematical content of a [`ParticipationSnapshot`].
pub struct ParticipationView {
    pub source: Option<FlagParticipationView>,
    pub target: Option<FlagParticipationView>,
    pub head: Option<FlagParticipationView>,
    pub total_active_balance: u64,
    pub base_reward_per_increment: u64,
    pub eligible_indices: Seq<usize>,
}

impl ParticipationView {
    /// The data held for `flag`, if any.
    pub open spec fn flag(self, flag: Flag) -> Option<FlagParticipationView> {
        match flag {
            Flag::Source => self.source,
            Flag::Target => self.target,
            Flag::Head => self.head,
        }
    }
}

/// The view of participation data that may be absent.
pub open spec fn flag_view(data: Option<FlagParticipation>) -> Option<FlagParticipationView> {
    match data {
        Some(held) => Some(held@),
        None => None,
    }
}

impl View for ParticipationSnapshot {
    type V = ParticipationView;

    open spec fn view(&self) -> ParticipationView {
        ParticipationView {
            source: flag_view(self.source),
            target: flag_view(self.target),
            head: flag_view(self.head),
            total_active_balance: self.total_active_balance,
            base_reward_per_increment: self.base_reward_per_increment,
            eligible_indices: self.eligible_indices@,
        }
    }
}

impl ParticipationSnapshot {
    /// The data held for `flag`, if any.
    pub fn flag(&self, flag: Flag) -> (r: &Option<FlagParticipation>)
        ensures
            flag_view(*r) == self@.flag(flag),
    {
        match flag {
            Flag::Source => &self.source,
            Flag::Target => &self.target,
            Flag::Head => &self.head,
        }
    }
}

} // verus!
