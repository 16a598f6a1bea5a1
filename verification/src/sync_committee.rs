//! Sync-committee rewards of one block.

use crate::arith::checked_signed;
use crate::error::{Missing, RewardsError};
use crate::records::SyncCommitteeReward;
use vstd::prelude::*;

verus! {

/// One seat of the sync committee, as the block's sync aggregate sees it.
#[derive(Clone, Copy, Debug, PartialEq, Eq, Structural)]
pub struct CommitteeSeat {
    /// The validator that holds the seat.
    pub validator_index: u64,
    /// Whether the aggregate includes the seat's signature.
    pub participated: bool,
}

/// A block that the chain resolved, with what reward accounting reads of it
/// and of the state that anchors it.
#[derive(Clone, Debug)]
pub struct ResolvedBlock {
    /// Whether the block's execution payload is not yet fully verified.
    pub execution_optimistic: bool,
    /// The seats of the sync committee, in committee order.
    pub seats: Vec<CommitteeSeat>,
    /// What the protocol pays a seat that the aggregate includes, and `None`
    /// where the protocol's reward function rejected the state.
    pub participant_reward: Option<u64>,
}

/// What the chain answered when asked for a block and its state.
#[derive(Clone, Debug)]
pub enum BlockLookup {
    /// The block identifier did not resolve to a block.
    BlockMissing,
    /// The chain holds no state for the block.
    StateMissing,
    /// The block and its state were found.
    Found(ResolvedBlock),
}

/// The seats that the aggregate includes.
pub open spec fn participated() -> spec_fn(CommitteeSeat) -> bool {
    |seat: CommitteeSeat| seat.participated
}

/// The record that pays `reward` to a seat's validator.
pub open spec fn paid(reward: i64) -> spec_fn(CommitteeSeat) -> SyncCommitteeReward {
    |seat: CommitteeSeat| SyncCommitteeReward { validator_index: seat.validator_index, reward }
}

/// One record for each seat that the aggregate includes, in committee order,
/// each paying `reward`.
pub open spec fn seat_rewards(seats: Seq<CommitteeSeat>, reward: i64) -> Seq<SyncCommitteeReward> {
    seats.filter(participated()).map_values(paid(reward))
}

/// The sync-committee rewards of a block, with the block's advisory flag.
///
/// Fails with `NotFound`, naming what is missing, where the chain has no such
/// block or no state for it, with `Spec`
/// where the protocol's reward function rejected the state, and with
/// `Arithmetic` where the reward does not fit in 64 signed bits.
pub open spec fn sync_committee_rewards(lookup: BlockLookup) -> Result<
    (Seq<SyncCommitteeReward>, bool),
    RewardsError,
> {
    match lookup {
        BlockLookup::BlockMissing => Err(RewardsError::NotFound(Missing::Block)),
        BlockLookup::StateMissing => Err(RewardsError::NotFound(Missing::State)),
        BlockLookup::Found(block) => match block.participant_reward {
            None => Err(RewardsError::Spec),
            Some(amount) => if amount <= i64::MAX {
                Ok((seat_rewards(block.seats@, amount as i64), block.execution_optimistic))
            } else {
                Err(RewardsError::Arithmetic)
            },
        },
    }
}

/// The outcome of a sync-committee reward computation, as mathematical
/// values.
pub open spec fn sync_outcome(r: Result<(Vec<SyncCommitteeReward>, bool), RewardsError>) -> Result<
    (Seq<SyncCommitteeReward>, bool),
    RewardsError,
> {
    match r {
        Ok((rewards, execution_optimistic)) => Ok((rewards@, execution_optimistic)),
        Err(e) => Err(e),
    }
}

/// Pays `reward` to each seat that the aggregate includes.
pub fn pay_seats(seats: &Vec<CommitteeSeat>, reward: i64) -> (rewards: Vec<SyncCommitteeReward>)
    ensures
        rewards@ == seat_rewards(seats@, reward),
{
    let mut rewards: Vec<SyncCommitteeReward> = Vec::new();
    let mut position: usize = 0;
    proof {
        reveal(Seq::filter);
        assert(seats@.take(0).filter(participated()) =~= Seq::empty());
        assert(rewards@ =~= seat_rewards(seats@.take(0), reward));
    }
    while position < seats.len()
        invariant
            position <= seats@.len(),
            rewards@ == seat_rewards(seats@.take(position as int), reward),
        decreases seats@.len() - position,
    {
        let seat = seats[position];
        proof {
            let before = seats@.take(position as int);
            assert(seats@.take(position + 1) =~= before.push(seat));
            before.lemma_filter_push(seat, participated());
            if seat.participated {
                assert(before.push(seat).filter(participated()).map_values(paid(reward))
                    =~= before.filter(participated()).map_values(paid(reward)).push(
                    paid(reward)(seat),
                ));
            }
        }
        if seat.participated {
            rewards.push(SyncCommitteeReward { validator_index: seat.validator_index, reward });
        }
        position += 1;
    }
    proof {
        assert(seats@.take(seats@.len() as int) =~= seats@);
    }
    rewards
}

/// Computes the sync-committee rewards of one block: one record for each
/// committee seat that the block's sync aggregate includes, in committee
/// order, with the block's advisory flag passed through.
pub fn compute_sync_committee_rewards(lookup: &BlockLookup) -> (r: Result<
    (Vec<SyncCommitteeReward>, bool),
    RewardsError,
>)
    ensures
        sync_outcome(r) == sync_committee_rewards(*lookup),
{
    let block = match lookup {
        BlockLookup::BlockMissing => {
            return Err(RewardsError::NotFound(Missing::Block));
        },
        BlockLookup::StateMissing => {
            return Err(RewardsError::NotFound(Missing::State));
        },
        BlockLookup::Found(block) => block,
    };
    let amount = match block.participant_reward {
        Some(amount) => amount,
        None => {
            return Err(RewardsError::Spec);
        },
    };
    let reward = checked_signed(amount)?;
    Ok((pay_seats(&block.seats, reward), block.execution_optimistic))
}

} // verus!
