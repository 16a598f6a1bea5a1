//! Attestation rewards of one epoch: the ideal reward table together with
//! the rewards of the requested validators.

use crate::config::RewardConfig;
use crate::error::{Missing, ParticipationGap, RewardsError};
use crate::ideal::{build_ideal_rewards, ideal_rewards};
use crate::records::{IdealAttestationReward, StandardAttestationRewards, TotalAttestationReward};
use crate::snapshot::{ParticipationSnapshot, StateSnapshot};
use crate::total::{assemble_totals, total_rewards};
use vstd::prelude::*;

verus! {

/// What the chain holds for the epoch being scored.
#[derive(Clone, Debug)]
pub struct EpochSnapshot {
    /// Whether the head of the chain is not yet fully verified.
    pub execution_optimistic: bool,
    pub state: StateSnapshot,
    pub participation: ParticipationSnapshot,
}

/// What the chain answered when asked for the state that anchors an epoch.
#[derive(Clone, Debug)]
pub enum EpochLookup {
    /// The chain records no state root for the slot.
    StateRootMissing,
    /// The chain holds no state for the state root.
    StateMissing,
    /// The state was found, but no participation data could be built from it.
    ParticipationUnavailable,
    /// The state was found and its participation data built.
    Found(EpochSnapshot),
}

/// The mathematical content of a [`StandardAttestationRewards`].
pub struct AttestationRewardsView {
    pub ideal_rewards: Seq<IdealAttestationReward>,
    pub total_rewards: Seq<TotalAttestationReward>,
}

impl View for StandardAttestationRewards {
    type V = AttestationRewardsView;

    open spec fn view(&self) -> AttestationRewardsView {
        AttestationRewardsView {
            ideal_rewards: self.ideal_rewards@,
            total_rewards: self.total_rewards@,
        }
    }
}

/// The attestation rewards of an epoch, with the advisory flag of the chain's
/// head.
///
/// Fails with `NotFound`, naming what is missing, where the chain has no
/// state root or no state for the epoch, and with `Participation` where no
/// participation data could be built. Otherwise the ideal reward table is built first and the records of
/// the requested validators are read off it; a failure of either is the
/// failure of the whole.
pub open spec fn attestation_rewards(
    lookup: EpochLookup,
    config: RewardConfig,
    validators: Seq<usize>,
) -> Result<(AttestationRewardsView, bool), RewardsError> {
    match lookup {
        EpochLookup::StateRootMissing => Err(RewardsError::NotFound(Missing::StateRoot)),
        EpochLookup::StateMissing => Err(RewardsError::NotFound(Missing::State)),
        EpochLookup::ParticipationUnavailable => Err(
            RewardsError::Participation(ParticipationGap::Cache),
        ),
        EpochLookup::Found(snapshot) => {
            match ideal_rewards(snapshot.state@, snapshot.participation@, config) {
                Err(e) => Err(e),
                Ok(table) => {
                    match total_rewards(
                        snapshot.state@,
                        snapshot.participation@,
                        config,
                        table,
                        validators,
                    ) {
                        Err(e) => Err(e),
                        Ok(totals) => Ok(
                            (
                                AttestationRewardsView {
                                    ideal_rewards: table,
                                    total_rewards: totals,
                                },
                                snapshot.execution_optimistic,
                            ),
                        ),
                    }
                },
            }
        },
    }
}

/// The outcome of an attestation reward computation, as mathematical values.
pub open spec fn attestation_outcome(
    r: Result<(StandardAttestationRewards, bool), RewardsError>,
) -> Result<(AttestationRewardsView, bool), RewardsError> {
    match r {
        Ok((rewards, execution_optimistic)) => Ok((rewards@, execution_optimistic)),
        Err(e) => Err(e),
    }
}

/// Computes the attestation rewards of one epoch for the requested
/// validators; an empty request stands for every eligible validator.
///
/// The result pairs the ideal reward table (33 records, by increasing
/// effective balance) and one record per requested validator, in the order of
/// the request, with the advisory flag of the chain's head.
pub fn compute_attestation_rewards(
    lookup: &EpochLookup,
    config: &RewardConfig,
    validators: &Vec<usize>,
) -> (r: Result<(StandardAttestationRewards, bool), RewardsError>)
    ensures
        attestation_outcome(r) == attestation_rewards(*lookup, *config, validators@),
{
    let snapshot = match lookup {
        EpochLookup::StateRootMissing => {
            return Err(RewardsError::NotFound(Missing::StateRoot));
        },
        EpochLookup::StateMissing => {
            return Err(RewardsError::NotFound(Missing::State));
        },
        EpochLookup::ParticipationUnavailable => {
            return Err(RewardsError::Participation(ParticipationGap::Cache));
        },
        EpochLookup::Found(snapshot) => snapshot,
    };
    let ideal_rewards = build_ideal_rewards(&snapshot.state, &snapshot.participation, config)?;
    let total_rewards = assemble_totals(
        &snapshot.state,
        &snapshot.participation,
        config,
        &ideal_rewards,
        validators,
    )?;
    Ok((StandardAttestationRewards { ideal_rewards, total_rewards }, snapshot.execution_optimistic))
}

} // verus!
