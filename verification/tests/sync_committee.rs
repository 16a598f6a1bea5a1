use beacon_rewards::error::{Missing, RewardsError};
use beacon_rewards::records::SyncCommitteeReward;
use beacon_rewards::sync_committee::{
    compute_sync_committee_rewards, pay_seats, BlockLookup, CommitteeSeat, ResolvedBlock,
};

fn seat(validator_index: u64, participated: bool) -> CommitteeSeat {
    CommitteeSeat { validator_index, participated }
}

fn paid(validator_index: u64, reward: i64) -> SyncCommitteeReward {
    SyncCommitteeReward { validator_index, reward }
}

fn block(participant_reward: Option<u64>) -> ResolvedBlock {
    ResolvedBlock {
        execution_optimistic: false,
        seats: vec![seat(7, true), seat(3, false), seat(9, true), seat(7, true), seat(1, false)],
        participant_reward,
    }
}

#[test]
fn seats_in_the_aggregate_are_paid_in_committee_order() {
    assert_eq!(
        compute_sync_committee_rewards(&BlockLookup::Found(block(Some(1_234)))),
        Ok((vec![paid(7, 1_234), paid(9, 1_234), paid(7, 1_234)], false))
    );
}

#[test]
fn pay_seats_skips_the_seats_left_out() {
    assert_eq!(pay_seats(&vec![seat(1, false), seat(2, false)], 5), Vec::new());
    assert_eq!(pay_seats(&Vec::new(), 5), Vec::new());
    assert_eq!(pay_seats(&vec![seat(1, false), seat(2, true)], 5), vec![paid(2, 5)]);
    assert_eq!(pay_seats(&vec![seat(4, true), seat(2, true)], -5), vec![paid(4, -5), paid(2, -5)]);
}

#[test]
fn block_flag_is_passed_through() {
    let mut resolved = block(Some(0));
    resolved.execution_optimistic = true;
    resolved.seats = vec![seat(5, true)];
    assert_eq!(
        compute_sync_committee_rewards(&BlockLookup::Found(resolved)),
        Ok((vec![paid(5, 0)], true))
    );
}

#[test]
fn missing_block_or_state_is_not_found() {
    assert_eq!(
        compute_sync_committee_rewards(&BlockLookup::BlockMissing),
        Err(RewardsError::NotFound(Missing::Block))
    );
    assert_eq!(
        compute_sync_committee_rewards(&BlockLookup::StateMissing),
        Err(RewardsError::NotFound(Missing::State))
    );
}

#[test]
fn rejected_reward_is_a_spec_error() {
    assert_eq!(
        compute_sync_committee_rewards(&BlockLookup::Found(block(None))),
        Err(RewardsError::Spec)
    );
}

#[test]
fn reward_must_fit_in_a_signed_amount() {
    assert_eq!(
        compute_sync_committee_rewards(&BlockLookup::Found(block(Some(i64::MAX as u64)))),
        Ok((vec![paid(7, i64::MAX), paid(9, i64::MAX), paid(7, i64::MAX)], false))
    );
    assert_eq!(
        compute_sync_committee_rewards(&BlockLookup::Found(block(Some(1 << 63)))),
        Err(RewardsError::Arithmetic)
    );
    let mut empty = block(Some(u64::MAX));
    empty.seats = Vec::new();
    assert_eq!(
        compute_sync_committee_rewards(&BlockLookup::Found(empty)),
        Err(RewardsError::Arithmetic)
    );
}
