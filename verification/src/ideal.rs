//! The ideal reward table: what a validator that attests correctly earns for
//! each flag, at each effective-balance level.

use crate::arith::{checked_div, checked_mul};
use crate::config::{Flag, RewardConfig, MAX_BALANCE_INCREMENTS};
use crate::error::{seq_outcome, ParticipationGap, RewardsError};
use crate::records::IdealAttestationReward;
use crate::snapshot::{ParticipationSnapshot, ParticipationView, StateSnapshot, StateView};
use vstd::prelude::*;

verus! {

/// The ideal reward for one flag at one effective-balance level, and `None`
/// where a product of the chain does not fit in 64 bits or a divisor is zero.
///
/// The numerator is `bucket * base_reward_per_increment * weight *
/// participating_increments`, built from left to right; it is divided first
/// by the active increments and then by the weight denominator, each time
/// rounding down.
pub open spec fn ideal_cell(
    bucket: int,
    base_reward_per_increment: int,
    weight: int,
    participating_increments: int,
    active_increments: int,
    weight_denominator: int,
) -> Option<int> {
    let base_reward = bucket * base_reward_per_increment;
    let weighted = base_reward * weight;
    let numerator = weighted * participating_increments;
    if base_reward <= u64::MAX && weighted <= u64::MAX && numerator <= u64::MAX
        && active_increments != 0 && weight_denominator != 0 {
        Some(numerator / active_increments / weight_denominator)
    } else {
        None
    }
}

/// The ideal reward of `flag` at level `bucket`, given participation data
/// for the flag and a nonzero increment size.
pub open spec fn flag_cell(
    participation: ParticipationView,
    config: RewardConfig,
    flag: Flag,
    bucket: int,
) -> Option<int>
    recommends
        participation.flag(flag) is Some,
        config.effective_balance_increment != 0,
{
    ideal_cell(
        bucket,
        participation.base_reward_per_increment as int,
        config.weight(flag) as int,
        participation.flag(flag)->Some_0.total_balance as int
            / config.effective_balance_increment as int,
        participation.total_active_balance as int / config.effective_balance_increment as int,
        config.weight_denominator as int,
    )
}

/// The ideal rewards of one flag at the levels 0 to 32, in that order.
///
/// Fails with `Participation`, naming the flag, where no data is held for
/// it; otherwise
/// with `Arithmetic` where the increment size is zero or some level's reward
/// cannot be computed. During an inactivity leak every reward is zero, but
/// the failures are the same.
pub open spec fn ideal_column(
    participation: ParticipationView,
    config: RewardConfig,
    in_leak: bool,
    flag: Flag,
) -> Result<Seq<u64>, RewardsError> {
    if participation.flag(flag) is None {
        Err(RewardsError::Participation(ParticipationGap::Flag(flag)))
    } else if config.effective_balance_increment == 0 {
        Err(RewardsError::Arithmetic)
    } else if forall|bucket: int|
        0 <= bucket <= MAX_BALANCE_INCREMENTS ==> flag_cell(participation, config, flag, bucket)
            is Some {
        Ok(
            Seq::new(
                (MAX_BALANCE_INCREMENTS + 1) as nat,
                |bucket: int|
                    if in_leak {
                        0u64
                    } else {
                        flag_cell(participation, config, flag, bucket)->Some_0 as u64
                    },
            ),
        )
    } else {
        Err(RewardsError::Arithmetic)
    }
}

/// The three columns merged into one record per level.
pub open spec fn merged_table(source: Seq<u64>, target: Seq<u64>, head: Seq<u64>) -> Seq<
    IdealAttestationReward,
> {
    Seq::new(
        (MAX_BALANCE_INCREMENTS + 1) as nat,
        |bucket: int|
            IdealAttestationReward {
                effective_balance: bucket as u64,
                head: head[bucket],
                target: target[bucket],
                source: source[bucket],
            },
    )
}

/// The ideal reward table of an epoch: 33 records, for the levels 0 to 32 in
/// that order. The flags are taken in the order source, target, head, and the
/// first failure of a flag's column is the failure of the table.
pub open spec fn ideal_rewards(
    state: StateView,
    participation: ParticipationView,
    config: RewardConfig,
) -> Result<Seq<IdealAttestationReward>, RewardsError> {
    let source = ideal_column(participation, config, state.in_inactivity_leak, Flag::Source);
    let target = ideal_column(participation, config, state.in_inactivity_leak, Flag::Target);
    let head = ideal_column(participation, config, state.in_inactivity_leak, Flag::Head);
    if source is Err {
        Err(source->Err_0)
    } else if target is Err {
        Err(target->Err_0)
    } else if head is Err {
        Err(head->Err_0)
    } else {
        Ok(merged_table(source->Ok_0, target->Ok_0, head->Ok_0))
    }
}

/// Computes the ideal reward for one flag at one level.
pub fn compute_ideal_cell(
    bucket: u64,
    base_reward_per_increment: u64,
    weight: u64,
    participating_increments: u64,
    active_increments: u64,
    weight_denominator: u64,
) -> (r: Result<u64, RewardsError>)
    ensures
        match ideal_cell(
            bucket as int,
            base_reward_per_increment as int,
            weight as int,
            participating_increments as int,
            active_increments as int,
            weight_denominator as int,
        ) {
            Some(reward) => r == Ok::<u64, RewardsError>(reward as u64) && reward <= u64::MAX,
            None => r == Err::<u64, RewardsError>(RewardsError::Arithmetic),
        },
{
    let base_reward = checked_mul(bucket, base_reward_per_increment)?;
    let weighted = checked_mul(base_reward, weight)?;
    let numerator = checked_mul(weighted, participating_increments)?;
    let per_active = checked_div(numerator, active_increments)?;
    checked_div(per_active, weight_denominator)
}

/// Computes the ideal rewards of one flag at the levels 0 to 32.
pub fn compute_ideal_column(
    participation: &ParticipationSnapshot,
    config: &RewardConfig,
    in_leak: bool,
    flag: Flag,
) -> (r: Result<Vec<u64>, RewardsError>)
    ensures
        seq_outcome(r) == ideal_column(participation@, *config, in_leak, flag),
{
    let weight = config.flag_weight(flag);
    let held = match participation.flag(flag) {
        Some(held) => held,
        None => {
            return Err(RewardsError::Participation(ParticipationGap::Flag(flag)));
        },
    };
    let participating_increments = checked_div(
        held.total_balance,
        config.effective_balance_increment,
    )?;
    let active_increments = checked_div(
        participation.total_active_balance,
        config.effective_balance_increment,
    )?;
    let mut column: Vec<u64> = Vec::new();
    let mut bucket: u64 = 0;
    while bucket <= MAX_BALANCE_INCREMENTS
        invariant
            bucket <= MAX_BALANCE_INCREMENTS + 1,
            column@.len() == bucket,
            weight == config.weight(flag),
            participation@.flag(flag) == Some(held@),
            config.effective_balance_increment != 0,
            participating_increments == held.total_balance / config.effective_balance_increment,
            active_increments == participation.total_active_balance
                / config.effective_balance_increment,
            forall|b: int|
                0 <= b < bucket ==> {
                    let cell = #[trigger] flag_cell(participation@, *config, flag, b);
                    cell is Some && column@[b] == if in_leak {
                        0
                    } else {
                        cell->Some_0
                    }
                },
        decreases MAX_BALANCE_INCREMENTS + 1 - bucket,
    {
        let reward = match compute_ideal_cell(
            bucket,
            participation.base_reward_per_increment,
            weight,
            participating_increments,
            active_increments,
            config.weight_denominator,
        ) {
            Ok(reward) => reward,
            Err(e) => {
                assert(flag_cell(participation@, *config, flag, bucket as int) is None);
                return Err(e);
            },
        };
        column.push(
            if in_leak {
                0
            } else {
                reward
            },
        );
        bucket += 1;
    }
    assert(column@ =~= ideal_column(participation@, *config, in_leak, flag)->Ok_0);
    Ok(column)
}

/// Builds the ideal reward table of an epoch.
///
/// On success the table holds exactly 33 records, in increasing order of
/// effective balance from 0 to 32; during an inactivity leak every reward in
/// it is zero.
pub fn build_ideal_rewards(
    state: &StateSnapshot,
    participation: &ParticipationSnapshot,
    config: &RewardConfig,
) -> (r: Result<Vec<IdealAttestationReward>, RewardsError>)
    ensures
        seq_outcome(r) == ideal_rewards(state@, participation@, *config),
{
    let in_leak = state.in_inactivity_leak;
    let source = compute_ideal_column(participation, config, in_leak, Flag::Source)?;
    let target = compute_ideal_column(participation, config, in_leak, Flag::Target)?;
    let head = compute_ideal_column(participation, config, in_leak, Flag::Head)?;
    let mut table: Vec<IdealAttestationReward> = Vec::new();
    let mut bucket: u64 = 0;
    while bucket <= MAX_BALANCE_INCREMENTS
        invariant
            bucket <= MAX_BALANCE_INCREMENTS + 1,
            table@.len() == bucket,
            source@.len() == MAX_BALANCE_INCREMENTS + 1,
            target@.len() == MAX_BALANCE_INCREMENTS + 1,
            head@.len() == MAX_BALANCE_INCREMENTS + 1,
            forall|b: int|
                0 <= b < bucket ==> table@[b] == merged_table(source@, target@, head@)[b],
        decreases MAX_BALANCE_INCREMENTS + 1 - bucket,
    {
        let level: usize = bucket as usize;
        table.push(
            IdealAttestationReward {
                effective_balance: bucket,
                head: head[level],
                target: target[level],
                source: source[level],
            },
        );
        bucket += 1;
    }
    assert(table@ =~= merged_table(source@, target@, head@));
    Ok(table)
}

} // verus!
