//! The rewards and penalties that each requested validator earned, read off
//! the ideal reward table where it attested correctly and computed from its
//! own base reward where it did not.

use crate::arith::{checked_div, checked_mul, checked_negated, checked_signed};
use crate::config::{Flag, RewardConfig};
use crate::error::{seq_outcome, ParticipationGap, RewardsError};
use crate::records::{IdealAttestationReward, TotalAttestationReward};
use crate::snapshot::{ParticipationSnapshot, ParticipationView, StateSnapshot, StateView};
use vstd::prelude::*;

verus! {

impl IdealAttestationReward {
    /// The reward that the record holds for `flag`.
    pub open spec fn reward(self, flag: Flag) -> u64 {
        match flag {
            Flag::Source => self.source,
            Flag::Target => self.target,
            Flag::Head => self.head,
        }
    }

    /// The reward that the record holds for `flag`.
    pub fn flag_reward(&self, flag: Flag) -> (r: u64)
        ensures
            r == self.reward(flag),
    {
        match flag {
            Flag::Source => self.source,
            Flag::Target => self.target,
            Flag::Head => self.head,
        }
    }
}

/// The first record at or after position `start` whose effective balance is
/// `bucket`.
pub open spec fn first_record_from(
    table: Seq<IdealAttestationReward>,
    bucket: u64,
    start: int,
) -> Option<IdealAttestationReward>
    decreases table.len() - start,
{
    if start < 0 || start >= table.len() {
        None
    } else if table[start].effective_balance == bucket {
        Some(table[start])
    } else {
        first_record_from(table, bucket, start + 1)
    }
}

/// The ideal reward for `flag` at level `bucket`: that of the first record of
/// the table with this effective balance, and zero where the table has none.
pub open spec fn ideal_value(table: Seq<IdealAttestationReward>, flag: Flag, bucket: u64) -> u64 {
    match first_record_from(table, bucket, 0) {
        Some(record) => record.reward(flag),
        None => 0,
    }
}

/// The penalty for a missed source or target vote at level `bucket`: the
/// validator's own base reward `bucket * base_reward_per_increment`, times
/// the flag's weight, divided by the weight denominator rounding down, taken
/// negative. `None` where a product does not fit in 64 bits, the denominator
/// is zero, or the penalty does not fit in 64 signed bits.
pub open spec fn penalty(
    bucket: int,
    base_reward_per_increment: int,
    weight: int,
    weight_denominator: int,
) -> Option<int> {
    let base_reward = bucket * base_reward_per_increment;
    let weighted = base_reward * weight;
    if base_reward <= u64::MAX && weighted <= u64::MAX && weight_denominator != 0 && -(weighted
        / weight_denominator) >= i64::MIN {
        Some(-(weighted / weight_denominator))
    } else {
        None
    }
}

/// What validator `index`, eligible and at level `bucket`, earns or loses for
/// `flag`.
///
/// Where it attested correctly, the ideal reward of its level. Where it did
/// not: nothing for the head flag, the penalty of its level for the source
/// and target flags. Fails with `Participation`, naming the flag, where no
/// data is held for it, with `Arithmetic` where the amount cannot be computed
/// or does not fit in 64 signed bits.
pub open spec fn flag_value(
    participation: ParticipationView,
    config: RewardConfig,
    table: Seq<IdealAttestationReward>,
    flag: Flag,
    index: int,
    bucket: u64,
) -> Result<i64, RewardsError> {
    match participation.flag(flag) {
        None => Err(RewardsError::Participation(ParticipationGap::Flag(flag))),
        Some(held) => {
            if held.participants.contains(index) {
                if ideal_value(table, flag, bucket) <= i64::MAX {
                    Ok(ideal_value(table, flag, bucket) as i64)
                } else {
                    Err(RewardsError::Arithmetic)
                }
            } else if flag is Head {
                Ok(0i64)
            } else {
                match penalty(
                    bucket as int,
                    participation.base_reward_per_increment as int,
                    config.weight(flag) as int,
                    config.weight_denominator as int,
                ) {
                    Some(amount) => Ok(amount as i64),
                    None => Err(RewardsError::Arithmetic),
                }
            }
        },
    }
}

/// The record of a validator that earns and loses nothing.
pub open spec fn no_reward(index: usize) -> TotalAttestationReward {
    TotalAttestationReward {
        validator_index: index as u64,
        head: 0,
        target: 0,
        source: 0,
        inclusion_delay: 0,
    }
}

/// The record of validator `index`.
///
/// Fails with `ValidatorLookup`, naming the index, where it lies beyond the
/// registry. A
/// validator that is not eligible earns and loses nothing. For an eligible
/// one the level is its effective balance divided by the increment size,
/// which fails with `Arithmetic` where that size is zero; its flags are then
/// valued in the order source, target, head, and the first failure is the
/// failure of the record.
pub open spec fn validator_total(
    state: StateView,
    participation: ParticipationView,
    config: RewardConfig,
    table: Seq<IdealAttestationReward>,
    index: usize,
) -> Result<TotalAttestationReward, RewardsError> {
    if index >= state.validators.len() {
        Err(RewardsError::ValidatorLookup(index))
    } else if !state.validators[index as int].eligible {
        Ok(no_reward(index))
    } else if config.effective_balance_increment == 0 {
        Err(RewardsError::Arithmetic)
    } else {
        let bucket = (state.validators[index as int].effective_balance
            / config.effective_balance_increment) as u64;
        let source = flag_value(participation, config, table, Flag::Source, index as int, bucket);
        let target = flag_value(participation, config, table, Flag::Target, index as int, bucket);
        let head = flag_value(participation, config, table, Flag::Head, index as int, bucket);
        if source is Err {
            Err(source->Err_0)
        } else if target is Err {
            Err(target->Err_0)
        } else if head is Err {
            Err(head->Err_0)
        } else {
            Ok(
                TotalAttestationReward {
                    validator_index: index as u64,
                    head: head->Ok_0,
                    target: target->Ok_0,
                    source: source->Ok_0,
                    inclusion_delay: 0,
                },
            )
        }
    }
}

/// Finds the first record of the table whose effective balance is `bucket`.
pub fn find_ideal_reward(table: &Vec<IdealAttestationReward>, bucket: u64) -> (r: Option<
    IdealAttestationReward,
>)
    ensures
        r == first_record_from(table@, bucket, 0),
{
    let mut position: usize = 0;
    while position < table.len()
        invariant
            position <= table@.len(),
            first_record_from(table@, bucket, 0) == first_record_from(
                table@,
                bucket,
                position as int,
            ),
        decreases table@.len() - position,
    {
        if table[position].effective_balance == bucket {
            return Some(table[position]);
        }
        position += 1;
    }
    None
}

/// Computes the penalty for a missed source or target vote at level `bucket`.
pub fn compute_penalty(
    bucket: u64,
    base_reward_per_increment: u64,
    weight: u64,
    weight_denominator: u64,
) -> (r: Result<i64, RewardsError>)
    ensures
        match penalty(
            bucket as int,
            base_reward_per_increment as int,
            weight as int,
            weight_denominator as int,
        ) {
            Some(amount) => r == Ok::<i64, RewardsError>(amount as i64) && i64::MIN <= amount <= 0,
            None => r == Err::<i64, RewardsError>(RewardsError::Arithmetic),
        },
{
    let base_reward = checked_mul(bucket, base_reward_per_increment)?;
    let weighted = checked_mul(base_reward, weight)?;
    let magnitude = checked_div(weighted, weight_denominator)?;
    checked_negated(magnitude)
}

/// Computes what validator `index`, eligible and at level `bucket`, earns or
/// loses for `flag`.
pub fn compute_flag_value(
    participation: &ParticipationSnapshot,
    config: &RewardConfig,
    table: &Vec<IdealAttestationReward>,
    flag: Flag,
    index: usize,
    bucket: u64,
) -> (r: Result<i64, RewardsError>)
    ensures
        r == flag_value(participation@, *config, table@, flag, index as int, bucket),
{
    let held = match participation.flag(flag) {
        Some(held) => held,
        None => {
            return Err(RewardsError::Participation(ParticipationGap::Flag(flag)));
        },
    };
    if held.contains(index) {
        let reward = match find_ideal_reward(table, bucket) {
            Some(record) => record.flag_reward(flag),
            None => 0,
        };
        checked_signed(reward)
    } else {
        match flag {
            Flag::Head => Ok(0),
            _ => compute_penalty(
                bucket,
                participation.base_reward_per_increment,
                config.flag_weight(flag),
                config.weight_denominator,
            ),
        }
    }
}

/// Computes the record of validator `index`.
pub fn compute_validator_total(
    state: &StateSnapshot,
    participation: &ParticipationSnapshot,
    config: &RewardConfig,
    table: &Vec<IdealAttestationReward>,
    index: usize,
) -> (r: Result<TotalAttestationReward, RewardsError>)
    ensures
        r == validator_total(state@, participation@, *config, table@, index),
{
    if index >= state.validators.len() {
        return Err(RewardsError::ValidatorLookup(index));
    }
    let status = state.validators[index];
    if !status.eligible {
        return Ok(
            TotalAttestationReward {
                validator_index: index as u64,
                head: 0,
                target: 0,
                source: 0,
                inclusion_delay: 0,
            },
        );
    }
    let bucket = checked_div(status.effective_balance, config.effective_balance_increment)?;
    let source = compute_flag_value(participation, config, table, Flag::Source, index, bucket)?;
    let target = compute_flag_value(participation, config, table, Flag::Target, index, bucket)?;
    let head = compute_flag_value(participation, config, table, Flag::Head, index, bucket)?;
    Ok(TotalAttestationReward { validator_index: index as u64, head, target, source, inclusion_delay: 0 })
}

/// The validators that a request names: the requested ones, or every
/// eligible validator where the request names none.
pub open spec fn selected_validators(
    participation: ParticipationView,
    validators: Seq<usize>,
) -> Seq<usize> {
    if validators.len() == 0 {
        participation.eligible_indices
    } else {
        validators
    }
}

/// Whether the record of every validator of `indices` can be computed.
pub open spec fn all_succeed(
    state: StateView,
    participation: ParticipationView,
    config: RewardConfig,
    table: Seq<IdealAttestationReward>,
    indices: Seq<usize>,
) -> bool {
    forall|i: int|
        0 <= i < indices.len() ==> (#[trigger] validator_total(
            state,
            participation,
            config,
            table,
            indices[i],
        )) is Ok
}

/// Whether position `i` of `indices` is the first whose record fails.
pub open spec fn is_first_failure(
    state: StateView,
    participation: ParticipationView,
    config: RewardConfig,
    table: Seq<IdealAttestationReward>,
    indices: Seq<usize>,
    i: int,
) -> bool {
    &&& 0 <= i < indices.len()
    &&& validator_total(state, participation, config, table, indices[i]) is Err
    &&& forall|j: int|
        0 <= j < i ==> (#[trigger] validator_total(
            state,
            participation,
            config,
            table,
            indices[j],
        )) is Ok
}

/// The records of the validators of `indices`, one per position and in the
/// same order; where some record fails there is no partial result, and the
/// failure is that of the first position that fails.
pub open spec fn rewards_of(
    state: StateView,
    participation: ParticipationView,
    config: RewardConfig,
    table: Seq<IdealAttestationReward>,
    indices: Seq<usize>,
) -> Result<Seq<TotalAttestationReward>, RewardsError> {
    if all_succeed(state, participation, config, table, indices) {
        Ok(
            Seq::new(
                indices.len(),
                |i: int| validator_total(state, participation, config, table, indices[i])->Ok_0,
            ),
        )
    } else {
        let first = choose|i: int|
            is_first_failure(state, participation, config, table, indices, i);
        Err(validator_total(state, participation, config, table, indices[first])->Err_0)
    }
}

/// The records of the validators that a request names.
pub open spec fn total_rewards(
    state: StateView,
    participation: ParticipationView,
    config: RewardConfig,
    table: Seq<IdealAttestationReward>,
    validators: Seq<usize>,
) -> Result<Seq<TotalAttestationReward>, RewardsError> {
    rewards_of(state, participation, config, table, selected_validators(participation, validators))
}

/// At most one position is the first to fail.
pub proof fn lemma_first_failure_unique(
    state: StateView,
    participation: ParticipationView,
    config: RewardConfig,
    table: Seq<IdealAttestationReward>,
    indices: Seq<usize>,
    i: int,
    j: int,
)
    requires
        is_first_failure(state, participation, config, table, indices, i),
        is_first_failure(state, participation, config, table, indices, j),
    ensures
        i == j,
{
    if i < j {
        assert(validator_total(state, participation, config, table, indices[i]) is Ok);
    }
    if j < i {
        assert(validator_total(state, participation, config, table, indices[j]) is Ok);
    }
}

/// Computes the records of `indices`, in order.
fn rewards_in_order(
    state: &StateSnapshot,
    participation: &ParticipationSnapshot,
    config: &RewardConfig,
    table: &Vec<IdealAttestationReward>,
    indices: &Vec<usize>,
) -> (r: Result<Vec<TotalAttestationReward>, RewardsError>)
    ensures
        seq_outcome(r) == rewards_of(state@, participation@, *config, table@, indices@),
{
    let mut totals: Vec<TotalAttestationReward> = Vec::new();
    let mut position: usize = 0;
    while position < indices.len()
        invariant
            position <= indices@.len(),
            totals@.len() == position,
            forall|i: int|
                0 <= i < position ==> (#[trigger] validator_total(
                    state@,
                    participation@,
                    *config,
                    table@,
                    indices@[i],
                )) == Ok::<TotalAttestationReward, RewardsError>(totals@[i]),
        decreases indices@.len() - position,
    {
        match compute_validator_total(state, participation, config, table, indices[position]) {
            Ok(total) => {
                totals.push(total);
            },
            Err(e) => {
                proof {
                    let at = position as int;
                    assert(is_first_failure(state@, participation@, *config, table@, indices@, at));
                    assert(!all_succeed(state@, participation@, *config, table@, indices@));
                    let first = choose|i: int|
                        is_first_failure(state@, participation@, *config, table@, indices@, i);
                    lemma_first_failure_unique(
                        state@,
                        participation@,
                        *config,
                        table@,
                        indices@,
                        at,
                        first,
                    );
                }
                return Err(e);
            },
        }
        position += 1;
    }
    proof {
        assert(all_succeed(state@, participation@, *config, table@, indices@));
        assert(totals@ =~= rewards_of(state@, participation@, *config, table@, indices@)->Ok_0);
    }
    Ok(totals)
}

/// Computes the records of the requested validators, in the order of the
/// request. An empty request stands for every eligible validator, in the
/// order in which the participation data lists them.
///
/// There is no partial result: the first record that fails ends the
/// computation with its failure.
pub fn assemble_totals(
    state: &StateSnapshot,
    participation: &ParticipationSnapshot,
    config: &RewardConfig,
    table: &Vec<IdealAttestationReward>,
    validators: &Vec<usize>,
) -> (r: Result<Vec<TotalAttestationReward>, RewardsError>)
    ensures
        seq_outcome(r) == total_rewards(state@, participation@, *config, table@, validators@),
{
    if validators.len() == 0 {
        rewards_in_order(state, participation, config, table, &participation.eligible_indices)
    } else {
        rewards_in_order(state, participation, config, table, validators)
    }
}

} // verus!
