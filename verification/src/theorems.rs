//! What holds of every reward computation, proved from the definitions that
//! the contracts of the computing functions are stated in.

use crate::attestation::{attestation_outcome, attestation_rewards, EpochLookup, EpochSnapshot};
use crate::config::{Flag, RewardConfig, MAX_BALANCE_INCREMENTS};
use crate::error::RewardsError;
use crate::ideal::{flag_cell, ideal_cell, ideal_column, ideal_rewards};
use crate::records::{IdealAttestationReward, StandardAttestationRewards, TotalAttestationReward};
use crate::snapshot::{ParticipationView, StateView};
use crate::total::{
    all_succeed, first_record_from, flag_value, ideal_value, is_first_failure,
    lemma_first_failure_unique, no_reward, penalty, rewards_of, selected_validators,
    total_rewards, validator_total,
};
use vstd::prelude::*;

verus! {

impl TotalAttestationReward {
    /// The amount that the record holds for `flag`.
    pub open spec fn value(self, flag: Flag) -> i64 {
        match flag {
            Flag::Source => self.source,
            Flag::Target => self.target,
            Flag::Head => self.head,
        }
    }
}

/// Two computations on the same lookup, constants and request end alike:
/// with the same failure, or with the same ideal rewards, the same total
/// rewards and the same advisory flag.
pub proof fn lemma_attestation_rewards_deterministic(
    lookup: EpochLookup,
    config: RewardConfig,
    validators: Seq<usize>,
    first: Result<(StandardAttestationRewards, bool), RewardsError>,
    second: Result<(StandardAttestationRewards, bool), RewardsError>,
)
    requires
        attestation_outcome(first) == attestation_rewards(lookup, config, validators),
        attestation_outcome(second) == attestation_rewards(lookup, config, validators),
    ensures
        attestation_outcome(first) == attestation_outcome(second),
        first is Ok ==> second is Ok && first->Ok_0.0.ideal_rewards@
            == second->Ok_0.0.ideal_rewards@ && first->Ok_0.0.total_rewards@
            == second->Ok_0.0.total_rewards@ && first->Ok_0.1 == second->Ok_0.1,
        first is Err ==> second is Err && first->Err_0 == second->Err_0,
{
}

/// The ideal reward table always holds exactly 33 records, and the record at
/// position `b` is the one for effective balance `b`: each of the levels 0 to
/// 32 appears exactly once, in increasing order.
pub proof fn lemma_table_covers_every_level(
    state: StateView,
    participation: ParticipationView,
    config: RewardConfig,
)
    requires
        ideal_rewards(state, participation, config) is Ok,
    ensures
        ideal_rewards(state, participation, config)->Ok_0.len() == MAX_BALANCE_INCREMENTS + 1,
        forall|b: int|
            0 <= b <= MAX_BALANCE_INCREMENTS ==> (#[trigger] ideal_rewards(
                state,
                participation,
                config,
            )->Ok_0[b]).effective_balance == b,
        forall|a: int, b: int|
            0 <= a <= MAX_BALANCE_INCREMENTS && 0 <= b <= MAX_BALANCE_INCREMENTS && a != b
                ==> (#[trigger] ideal_rewards(state, participation, config)->Ok_0[a]).effective_balance
                != (#[trigger] ideal_rewards(state, participation, config)->Ok_0[b]).effective_balance,
{
}

/// During an inactivity leak every record of the ideal reward table pays
/// nothing for any flag.
pub proof fn lemma_leak_pays_nothing(
    state: StateView,
    participation: ParticipationView,
    config: RewardConfig,
)
    requires
        state.in_inactivity_leak,
        ideal_rewards(state, participation, config) is Ok,
    ensures
        forall|b: int|
            0 <= b <= MAX_BALANCE_INCREMENTS ==> {
                let record = #[trigger] ideal_rewards(state, participation, config)->Ok_0[b];
                record.head == 0 && record.target == 0 && record.source == 0
            },
{
}

/// A validator that is not eligible earns and loses nothing, whatever the
/// participation data, the constants and the ideal reward table hold.
pub proof fn lemma_ineligible_earns_nothing(
    state: StateView,
    participation: ParticipationView,
    config: RewardConfig,
    table: Seq<IdealAttestationReward>,
    index: usize,
)
    requires
        index < state.validators.len(),
        !state.validators[index as int].eligible,
    ensures
        validator_total(state, participation, config, table, index) == Ok::<
            TotalAttestationReward,
            RewardsError,
        >(no_reward(index)),
        no_reward(index).head == 0 && no_reward(index).target == 0 && no_reward(index).source == 0
            && no_reward(index).inclusion_delay == 0,
{
}

/// The penalty of a level, where it can be computed, is never positive.
pub proof fn lemma_penalty_never_positive(
    bucket: u64,
    base_reward_per_increment: u64,
    weight: u64,
    weight_denominator: u64,
)
    requires
        penalty(
            bucket as int,
            base_reward_per_increment as int,
            weight as int,
            weight_denominator as int,
        ) is Some,
    ensures
        i64::MIN <= penalty(
            bucket as int,
            base_reward_per_increment as int,
            weight as int,
            weight_denominator as int,
        )->Some_0 <= 0,
{
    let weighted = (bucket as int * base_reward_per_increment as int) * weight as int;
    assert(0 <= weighted) by (nonlinear_arith)
        requires
            weighted == (bucket as int * base_reward_per_increment as int) * weight as int,
            0 <= bucket,
            0 <= base_reward_per_increment,
            0 <= weight,
    ;
    assert(0 <= weighted / weight_denominator as int) by (nonlinear_arith)
        requires
            0 <= weighted,
            0 < weight_denominator,
    ;
}

/// An eligible validator that did not attest correctly for a flag gains
/// nothing for it: its head amount is exactly zero, its source and target
/// amounts are at most zero.
pub proof fn lemma_missed_vote_never_pays(
    state: StateView,
    participation: ParticipationView,
    config: RewardConfig,
    table: Seq<IdealAttestationReward>,
    index: usize,
    flag: Flag,
)
    requires
        index < state.validators.len(),
        state.validators[index as int].eligible,
        participation.flag(flag) is Some,
        !participation.flag(flag)->Some_0.participants.contains(index as int),
        validator_total(state, participation, config, table, index) is Ok,
    ensures
        flag is Head ==> validator_total(state, participation, config, table, index)->Ok_0.head
            == 0,
        validator_total(state, participation, config, table, index)->Ok_0.value(flag) <= 0,
{
    let bucket = (state.validators[index as int].effective_balance
        / config.effective_balance_increment) as u64;
    if !(flag is Head) {
        assert(flag_value(participation, config, table, flag, index as int, bucket) is Ok);
        lemma_penalty_never_positive(
            bucket,
            participation.base_reward_per_increment,
            config.weight(flag),
            config.weight_denominator,
        );
    }
}

/// Whether the numerator of the ideal reward of `flag` at level `bucket`
/// does not fit in 64 bits.
pub open spec fn numerator_overflows(
    participation: ParticipationView,
    config: RewardConfig,
    flag: Flag,
    bucket: int,
) -> bool {
    bucket * participation.base_reward_per_increment * config.weight(flag) * (
    participation.flag(flag)->Some_0.total_balance / config.effective_balance_increment)
        > u64::MAX
}

/// Where participation data is held for all three flags and the numerator of
/// some flag's ideal reward at some level does not fit in 64 bits, no table
/// is built: the computation fails with `Arithmetic`.
pub proof fn lemma_overflow_is_refused(
    state: StateView,
    participation: ParticipationView,
    config: RewardConfig,
    flag: Flag,
    bucket: int,
)
    requires
        participation.source is Some,
        participation.target is Some,
        participation.head is Some,
        0 <= bucket <= MAX_BALANCE_INCREMENTS,
        numerator_overflows(participation, config, flag, bucket),
    ensures
        ideal_rewards(state, participation, config) == Err::<
            Seq<IdealAttestationReward>,
            RewardsError,
        >(RewardsError::Arithmetic),
{
    let leak = state.in_inactivity_leak;
    if config.effective_balance_increment != 0 {
        assert(flag_cell(participation, config, flag, bucket) is None);
        assert(ideal_column(participation, config, leak, flag) is Err);
    }
    assert(ideal_column(participation, config, leak, Flag::Source) is Err ==> ideal_column(
        participation,
        config,
        leak,
        Flag::Source,
    )->Err_0 == RewardsError::Arithmetic);
    assert(ideal_column(participation, config, leak, Flag::Target) is Err ==> ideal_column(
        participation,
        config,
        leak,
        Flag::Target,
    )->Err_0 == RewardsError::Arithmetic);
    assert(ideal_column(participation, config, leak, Flag::Head) is Err ==> ideal_column(
        participation,
        config,
        leak,
        Flag::Head,
    )->Err_0 == RewardsError::Arithmetic);
}

/// The levels fail from the top: where the ideal reward of a level can be
/// computed, so can that of every lower level.
pub proof fn lemma_lower_levels_succeed(
    lower: int,
    bucket: int,
    base_reward_per_increment: u64,
    weight: u64,
    participating_increments: u64,
    active_increments: u64,
    weight_denominator: u64,
)
    requires
        0 <= lower <= bucket,
        ideal_cell(
            bucket,
            base_reward_per_increment as int,
            weight as int,
            participating_increments as int,
            active_increments as int,
            weight_denominator as int,
        ) is Some,
    ensures
        ideal_cell(
            lower,
            base_reward_per_increment as int,
            weight as int,
            participating_increments as int,
            active_increments as int,
            weight_denominator as int,
        ) is Some,
{
    let rate = base_reward_per_increment as int;
    let scale = weight as int;
    let share = participating_increments as int;
    assert(lower * rate <= bucket * rate) by (nonlinear_arith)
        requires
            0 <= lower <= bucket,
            0 <= rate,
    ;
    assert((lower * rate) * scale <= (bucket * rate) * scale) by (nonlinear_arith)
        requires
            lower * rate <= bucket * rate,
            0 <= scale,
    ;
    assert(((lower * rate) * scale) * share <= ((bucket * rate) * scale) * share)
        by (nonlinear_arith)
        requires
            (lower * rate) * scale <= (bucket * rate) * scale,
            0 <= share,
    ;
}

/// A missed source or target vote whose penalty chain does not fit in 64
/// bits fails with `Arithmetic`: no amount is returned for it.
pub proof fn lemma_penalty_overflow_is_refused(
    participation: ParticipationView,
    config: RewardConfig,
    table: Seq<IdealAttestationReward>,
    flag: Flag,
    index: int,
    bucket: u64,
)
    requires
        !(flag is Head),
        participation.flag(flag) is Some,
        !participation.flag(flag)->Some_0.participants.contains(index),
        bucket * participation.base_reward_per_increment * config.weight(flag) > u64::MAX,
    ensures
        flag_value(participation, config, table, flag, index, bucket) == Err::<i64, RewardsError>(
            RewardsError::Arithmetic,
        ),
{
}

/// Where the records of `indices` can all be computed, there is one per
/// position, in the same order, each naming its validator.
pub proof fn lemma_rewards_follow_request(
    state: StateView,
    participation: ParticipationView,
    config: RewardConfig,
    table: Seq<IdealAttestationReward>,
    indices: Seq<usize>,
)
    requires
        rewards_of(state, participation, config, table, indices) is Ok,
    ensures
        rewards_of(state, participation, config, table, indices)->Ok_0.len() == indices.len(),
        forall|i: int|
            0 <= i < indices.len() ==> {
                let record = #[trigger] rewards_of(
                    state,
                    participation,
                    config,
                    table,
                    indices,
                )->Ok_0[i];
                &&& validator_total(state, participation, config, table, indices[i]) == Ok::<
                    TotalAttestationReward,
                    RewardsError,
                >(record)
                &&& record.validator_index == indices[i]
                &&& record.inclusion_delay == 0
            },
{
    if !all_succeed(state, participation, config, table, indices) {
        lemma_some_failure_is_first(state, participation, config, table, indices);
    }
    let totals = rewards_of(state, participation, config, table, indices)->Ok_0;
    assert forall|i: int| 0 <= i < indices.len() implies {
        let record = #[trigger] totals[i];
        &&& validator_total(state, participation, config, table, indices[i]) == Ok::<
            TotalAttestationReward,
            RewardsError,
        >(record)
        &&& record.validator_index == indices[i]
        &&& record.inclusion_delay == 0
    } by {
        assert(validator_total(state, participation, config, table, indices[i]) is Ok);
    }
}

/// Where some record of `indices` fails, one position is the first to fail,
/// and the failure of the whole is the failure of that position.
pub proof fn lemma_some_failure_is_first(
    state: StateView,
    participation: ParticipationView,
    config: RewardConfig,
    table: Seq<IdealAttestationReward>,
    indices: Seq<usize>,
)
    requires
        !all_succeed(state, participation, config, table, indices),
    ensures
        exists|i: int| is_first_failure(state, participation, config, table, indices, i),
        rewards_of(state, participation, config, table, indices) is Err,
        forall|i: int|
            is_first_failure(state, participation, config, table, indices, i) ==> rewards_of(
                state,
                participation,
                config,
                table,
                indices,
            ) == Err::<Seq<TotalAttestationReward>, RewardsError>(
                validator_total(state, participation, config, table, indices[i])->Err_0,
            ),
{
    let failing = choose|i: int|
        0 <= i < indices.len() && !(#[trigger] validator_total(
            state,
            participation,
            config,
            table,
            indices[i],
        ) is Ok);
    lemma_least_failure(state, participation, config, table, indices, failing);
    let first = choose|i: int| is_first_failure(state, participation, config, table, indices, i);
    assert forall|i: int|
        is_first_failure(state, participation, config, table, indices, i) implies rewards_of(
        state,
        participation,
        config,
        table,
        indices,
    ) == Err::<Seq<TotalAttestationReward>, RewardsError>(
        validator_total(state, participation, config, table, indices[i])->Err_0,
    ) by {
        lemma_first_failure_unique(state, participation, config, table, indices, i, first);
    }
}

/// Below any failing position lies a first failing position.
proof fn lemma_least_failure(
    state: StateView,
    participation: ParticipationView,
    config: RewardConfig,
    table: Seq<IdealAttestationReward>,
    indices: Seq<usize>,
    failing: int,
)
    requires
        0 <= failing < indices.len(),
        validator_total(state, participation, config, table, indices[failing]) is Err,
    ensures
        exists|i: int| is_first_failure(state, participation, config, table, indices, i),
    decreases failing,
{
    if forall|j: int|
        0 <= j < failing ==> (#[trigger] validator_total(
            state,
            participation,
            config,
            table,
            indices[j],
        )) is Ok {
        assert(is_first_failure(state, participation, config, table, indices, failing));
    } else {
        let earlier = choose|j: int|
            0 <= j < failing && !(#[trigger] validator_total(
                state,
                participation,
                config,
                table,
                indices[j],
            ) is Ok);
        lemma_least_failure(state, participation, config, table, indices, earlier);
    }
}

/// An empty request stands for every eligible validator: its outcome is that
/// of the request that names the eligible validators, and on success there is
/// exactly one record per eligible validator, in the order in which the
/// participation data lists them.
pub proof fn lemma_empty_request_means_all(
    state: StateView,
    participation: ParticipationView,
    config: RewardConfig,
    table: Seq<IdealAttestationReward>,
)
    ensures
        total_rewards(state, participation, config, table, Seq::<usize>::empty()) == rewards_of(
            state,
            participation,
            config,
            table,
            participation.eligible_indices,
        ),
        total_rewards(state, participation, config, table, Seq::<usize>::empty()) is Ok ==> {
            let totals = total_rewards(
                state,
                participation,
                config,
                table,
                Seq::<usize>::empty(),
            )->Ok_0;
            &&& totals.len() == participation.eligible_indices.len()
            &&& forall|i: int|
                0 <= i < totals.len() ==> (#[trigger] totals[i]).validator_index
                    == participation.eligible_indices[i]
        },
{
    if total_rewards(state, participation, config, table, Seq::<usize>::empty()) is Ok {
        lemma_rewards_follow_request(
            state,
            participation,
            config,
            table,
            participation.eligible_indices,
        );
    }
}

/// In a table whose record at each position `b` is the one for effective
/// balance `b`, the first record for a level at or after an earlier position
/// is the record at that level's own position.
proof fn lemma_first_record_in_order(
    table: Seq<IdealAttestationReward>,
    bucket: u64,
    start: int,
)
    requires
        0 <= start <= bucket < table.len(),
        forall|b: int| 0 <= b < table.len() ==> (#[trigger] table[b]).effective_balance == b,
    ensures
        first_record_from(table, bucket, start) == Some(table[bucket as int]),
    decreases bucket - start,
{
    if start < bucket {
        lemma_first_record_in_order(table, bucket, start + 1);
    }
}

/// A validator that attested correctly is paid from the table that was built
/// for the epoch: for a level from 0 to 32, the ideal reward that the totals
/// read is the one that the table's record at that position holds.
pub proof fn lemma_built_table_pays_its_level(
    state: StateView,
    participation: ParticipationView,
    config: RewardConfig,
    flag: Flag,
    bucket: u64,
)
    requires
        ideal_rewards(state, participation, config) is Ok,
        bucket <= MAX_BALANCE_INCREMENTS,
    ensures
        ideal_value(ideal_rewards(state, participation, config)->Ok_0, flag, bucket)
            == ideal_rewards(state, participation, config)->Ok_0[bucket as int].reward(flag),
{
    let table = ideal_rewards(state, participation, config)->Ok_0;
    lemma_table_covers_every_level(state, participation, config);
    assert forall|b: int| 0 <= b < table.len() implies (#[trigger] table[b]).effective_balance
        == b by {}
    lemma_first_record_in_order(table, bucket, 0);
}

/// An eligible validator at a level from 0 to 32 that attested correctly for
/// every flag earns exactly what the table built for the epoch holds at its
/// level, and nothing for inclusion delay.
pub proof fn lemma_correct_votes_earn_the_ideal(
    state: StateView,
    participation: ParticipationView,
    config: RewardConfig,
    index: usize,
)
    requires
        ideal_rewards(state, participation, config) is Ok,
        index < state.validators.len(),
        state.validators[index as int].eligible,
        state.validators[index as int].effective_balance / config.effective_balance_increment
            <= MAX_BALANCE_INCREMENTS,
        participation.source->Some_0.participants.contains(index as int),
        participation.target->Some_0.participants.contains(index as int),
        participation.head->Some_0.participants.contains(index as int),
        validator_total(
            state,
            participation,
            config,
            ideal_rewards(state, participation, config)->Ok_0,
            index,
        ) is Ok,
    ensures
        ({
            let table = ideal_rewards(state, participation, config)->Ok_0;
            let level = state.validators[index as int].effective_balance
                / config.effective_balance_increment;
            let record = validator_total(state, participation, config, table, index)->Ok_0;
            &&& record.validator_index == index
            &&& record.head == table[level as int].head
            &&& record.target == table[level as int].target
            &&& record.source == table[level as int].source
            &&& record.inclusion_delay == 0
        }),
{
    let bucket = (state.validators[index as int].effective_balance
        / config.effective_balance_increment) as u64;
    lemma_built_table_pays_its_level(state, participation, config, Flag::Source, bucket);
    lemma_built_table_pays_its_level(state, participation, config, Flag::Target, bucket);
    lemma_built_table_pays_its_level(state, participation, config, Flag::Head, bucket);
}

/// An eligible validator that missed the source or the target vote loses,
/// for that flag, its own base reward weighted by the flag: the amount is the
/// negative of `level * base_reward_per_increment * weight /
/// weight_denominator`, whatever the ideal reward table holds.
pub proof fn lemma_missed_vote_costs_own_base_reward(
    state: StateView,
    participation: ParticipationView,
    config: RewardConfig,
    table: Seq<IdealAttestationReward>,
    index: usize,
    flag: Flag,
)
    requires
        !(flag is Head),
        index < state.validators.len(),
        state.validators[index as int].eligible,
        participation.flag(flag) is Some,
        !participation.flag(flag)->Some_0.participants.contains(index as int),
        validator_total(state, participation, config, table, index) is Ok,
    ensures
        ({
            let level = state.validators[index as int].effective_balance
                / config.effective_balance_increment;
            validator_total(state, participation, config, table, index)->Ok_0.value(flag) == -(
            level * participation.base_reward_per_increment * config.weight(flag)
                / (config.weight_denominator as int))
        }),
{
    let bucket = (state.validators[index as int].effective_balance
        / config.effective_balance_increment) as u64;
    assert(flag_value(participation, config, table, flag, index as int, bucket) is Ok);
}

/// What a successful computation for a found epoch returns: the advisory
/// flag of the snapshot, the ideal reward table of the epoch, and one record
/// per named validator, in order, each computed against that table.
pub proof fn lemma_attestation_rewards_parts(
    snapshot: EpochSnapshot,
    config: RewardConfig,
    validators: Seq<usize>,
)
    requires
        attestation_rewards(EpochLookup::Found(snapshot), config, validators) is Ok,
    ensures
        ({
            let found = attestation_rewards(EpochLookup::Found(snapshot), config, validators)->Ok_0;
            let indices = selected_validators(snapshot.participation@, validators);
            &&& found.1 == snapshot.execution_optimistic
            &&& ideal_rewards(snapshot.state@, snapshot.participation@, config) == Ok::<
                Seq<IdealAttestationReward>,
                RewardsError,
            >(found.0.ideal_rewards)
            &&& found.0.total_rewards.len() == indices.len()
            &&& forall|i: int|
                0 <= i < indices.len() ==> validator_total(
                    snapshot.state@,
                    snapshot.participation@,
                    config,
                    found.0.ideal_rewards,
                    indices[i],
                ) == Ok::<TotalAttestationReward, RewardsError>(#[trigger] found.0.total_rewards[i])
        }),
{
    let table = ideal_rewards(snapshot.state@, snapshot.participation@, config)->Ok_0;
    let indices = selected_validators(snapshot.participation@, validators);
    lemma_rewards_follow_request(snapshot.state@, snapshot.participation@, config, table, indices);
}

} // verus!
