use beacon_rewards::config::{Flag, RewardConfig};
use beacon_rewards::error::{ParticipationGap, RewardsError};
use beacon_rewards::records::{IdealAttestationReward, TotalAttestationReward};
use beacon_rewards::snapshot::{
    FlagParticipation, ParticipationSnapshot, StateSnapshot, ValidatorStatus,
};
use beacon_rewards::total::{
    assemble_totals, compute_flag_value, compute_penalty, compute_validator_total,
    find_ideal_reward,
};

fn config() -> RewardConfig {
    RewardConfig {
        effective_balance_increment: 1_000_000_000,
        weight_denominator: 64,
        source_weight: 14,
        target_weight: 26,
        head_weight: 14,
    }
}

fn record(effective_balance: u64, head: u64, target: u64, source: u64) -> IdealAttestationReward {
    IdealAttestationReward { effective_balance, head, target, source }
}

fn table() -> Vec<IdealAttestationReward> {
    vec![record(0, 1, 2, 3), record(16, 10, 20, 30), record(32, 100, 200, 300), record(16, 7, 8, 9)]
}

fn validator(eligible: bool, increments: u64) -> ValidatorStatus {
    ValidatorStatus { eligible, effective_balance: increments * 1_000_000_000 }
}

fn state() -> StateSnapshot {
    StateSnapshot {
        validators: vec![
            validator(true, 16),
            validator(true, 32),
            validator(false, 32),
            validator(true, 0),
            validator(true, 40),
        ],
        in_inactivity_leak: false,
    }
}

fn held(participants: Vec<bool>) -> Option<FlagParticipation> {
    Some(FlagParticipation { total_balance: 0, participants })
}

fn participation() -> ParticipationSnapshot {
    ParticipationSnapshot {
        source: held(vec![true, false, true, true, true]),
        target: held(vec![true, false, true, false, false]),
        head: held(vec![false, false, true]),
        total_active_balance: 0,
        base_reward_per_increment: 292_118,
        eligible_indices: vec![3, 0, 1],
    }
}

fn total(validator_index: u64, head: i64, target: i64, source: i64) -> TotalAttestationReward {
    TotalAttestationReward { validator_index, head, target, source, inclusion_delay: 0 }
}

#[test]
fn find_ideal_reward_takes_the_first_record_of_a_level() {
    assert_eq!(find_ideal_reward(&table(), 16), Some(record(16, 10, 20, 30)));
    assert_eq!(find_ideal_reward(&table(), 0), Some(record(0, 1, 2, 3)));
    assert_eq!(find_ideal_reward(&table(), 32), Some(record(32, 100, 200, 300)));
    assert_eq!(find_ideal_reward(&table(), 1), None);
    assert_eq!(find_ideal_reward(&Vec::new(), 0), None);
}

#[test]
fn ideal_record_reward_by_flag() {
    let r = record(16, 10, 20, 30);
    assert_eq!(r.flag_reward(Flag::Head), 10);
    assert_eq!(r.flag_reward(Flag::Target), 20);
    assert_eq!(r.flag_reward(Flag::Source), 30);
}

#[test]
fn penalty_follows_the_formula() {
    assert_eq!(compute_penalty(16, 292_118, 26, 64), Ok(-1_898_767));
    assert_eq!(compute_penalty(16, 292_118, 14, 64), Ok(-1_022_413));
    assert_eq!(compute_penalty(32, 292_118, 26, 64), Ok(-3_797_534));
    assert_eq!(compute_penalty(16, 100, 26, 64), Ok(-650));
    assert_eq!(compute_penalty(0, 292_118, 26, 64), Ok(0));
    // 3 * 5 * 3 = 45; 45 / 64 rounds down to nothing.
    assert_eq!(compute_penalty(3, 5, 3, 64), Ok(0));
}

#[test]
fn penalty_refuses_what_cannot_be_computed() {
    assert_eq!(compute_penalty(2, u64::MAX, 1, 64), Err(RewardsError::Arithmetic));
    assert_eq!(compute_penalty(1, u64::MAX, 2, 64), Err(RewardsError::Arithmetic));
    assert_eq!(compute_penalty(16, 100, 26, 0), Err(RewardsError::Arithmetic));
}

#[test]
fn penalty_must_fit_in_a_signed_amount() {
    assert_eq!(compute_penalty(1, i64::MAX as u64, 1, 1), Ok(-i64::MAX));
    assert_eq!(compute_penalty(1, 1 << 63, 1, 1), Ok(i64::MIN));
    assert_eq!(compute_penalty(1, (1 << 63) + 1, 1, 1), Err(RewardsError::Arithmetic));
    assert_eq!(compute_penalty(1, u64::MAX, 1, 1), Err(RewardsError::Arithmetic));
    assert_eq!(compute_penalty(1, u64::MAX, 1, 2), Ok(-i64::MAX));
}

#[test]
fn flag_value_of_a_correct_vote_is_the_ideal_reward() {
    let p = participation();
    assert_eq!(compute_flag_value(&p, &config(), &table(), Flag::Source, 0, 16), Ok(30));
    assert_eq!(compute_flag_value(&p, &config(), &table(), Flag::Target, 0, 16), Ok(20));
    assert_eq!(compute_flag_value(&p, &config(), &table(), Flag::Source, 3, 0), Ok(3));
    assert_eq!(compute_flag_value(&p, &config(), &table(), Flag::Head, 2, 32), Ok(100));
}

#[test]
fn flag_value_of_a_missed_vote_is_a_penalty_but_for_head() {
    let p = participation();
    assert_eq!(compute_flag_value(&p, &config(), &table(), Flag::Head, 0, 16), Ok(0));
    assert_eq!(compute_flag_value(&p, &config(), &table(), Flag::Target, 1, 32), Ok(-3_797_534));
    assert_eq!(compute_flag_value(&p, &config(), &table(), Flag::Source, 1, 32), Ok(-2_044_826));
    // An index beyond the participation data did not vote.
    assert_eq!(compute_flag_value(&p, &config(), &table(), Flag::Head, 4, 16), Ok(0));
    assert_eq!(compute_flag_value(&p, &config(), &table(), Flag::Target, 9, 16), Ok(-1_898_767));
}

#[test]
fn flag_value_of_a_level_without_a_record_is_zero() {
    let p = participation();
    assert_eq!(compute_flag_value(&p, &config(), &table(), Flag::Source, 4, 40), Ok(0));
    assert_eq!(compute_flag_value(&p, &config(), &Vec::new(), Flag::Source, 0, 16), Ok(0));
}

#[test]
fn flag_value_refuses_a_reward_beyond_the_signed_range() {
    let p = participation();
    let big = vec![record(16, 0, i64::MAX as u64, i64::MAX as u64 + 1)];
    assert_eq!(compute_flag_value(&p, &config(), &big, Flag::Target, 0, 16), Ok(i64::MAX));
    assert_eq!(
        compute_flag_value(&p, &config(), &big, Flag::Source, 0, 16),
        Err(RewardsError::Arithmetic)
    );
}

#[test]
fn flag_value_needs_data_for_the_flag() {
    let mut p = participation();
    p.target = None;
    assert_eq!(
        compute_flag_value(&p, &config(), &table(), Flag::Target, 0, 16),
        Err(RewardsError::Participation(ParticipationGap::Flag(Flag::Target)))
    );
}

#[test]
fn validator_total_of_an_eligible_validator() {
    let p = participation();
    assert_eq!(
        compute_validator_total(&state(), &p, &config(), &table(), 0),
        Ok(total(0, 0, 20, 30))
    );
    assert_eq!(
        compute_validator_total(&state(), &p, &config(), &table(), 1),
        Ok(total(1, 0, -3_797_534, -2_044_826))
    );
    assert_eq!(
        compute_validator_total(&state(), &p, &config(), &table(), 3),
        Ok(total(3, 0, 0, 3))
    );
}

#[test]
fn validator_total_of_an_ineligible_validator_is_zero() {
    // Validator 2 attested correctly for every flag, but is not eligible.
    let p = participation();
    assert_eq!(compute_validator_total(&state(), &p, &config(), &table(), 2), Ok(total(2, 0, 0, 0)));
    // Neither missing data nor a zero increment matters for it.
    let mut p = participation();
    p.source = None;
    let mut c = config();
    c.effective_balance_increment = 0;
    assert_eq!(compute_validator_total(&state(), &p, &c, &table(), 2), Ok(total(2, 0, 0, 0)));
}

#[test]
fn validator_total_beyond_the_largest_level() {
    // Validator 4 holds 40 increments: no record pays it, its penalty is its own.
    let p = participation();
    assert_eq!(
        compute_validator_total(&state(), &p, &config(), &table(), 4),
        Ok(total(4, 0, -4_746_917, 0))
    );
}

#[test]
fn validator_total_refuses_an_unknown_index() {
    let p = participation();
    assert_eq!(
        compute_validator_total(&state(), &p, &config(), &table(), 5),
        Err(RewardsError::ValidatorLookup(5))
    );
    assert_eq!(
        compute_validator_total(&state(), &p, &config(), &table(), usize::MAX),
        Err(RewardsError::ValidatorLookup(usize::MAX))
    );
}

#[test]
fn validator_total_refuses_a_zero_increment() {
    let p = participation();
    let mut c = config();
    c.effective_balance_increment = 0;
    assert_eq!(
        compute_validator_total(&state(), &p, &c, &table(), 0),
        Err(RewardsError::Arithmetic)
    );
}

#[test]
fn validator_total_reports_the_first_flag_that_fails() {
    let mut p = participation();
    p.head = None;
    let mut c = config();
    c.weight_denominator = 0;
    // Validator 1 missed source: its penalty fails before the head data is missed.
    assert_eq!(
        compute_validator_total(&state(), &p, &c, &table(), 1),
        Err(RewardsError::Arithmetic)
    );
    // Validator 0 attested source and target correctly: only the head data is missed.
    assert_eq!(
        compute_validator_total(&state(), &p, &c, &table(), 0),
        Err(RewardsError::Participation(ParticipationGap::Flag(Flag::Head)))
    );
}

#[test]
fn missed_votes_never_pay() {
    let p = participation();
    for index in [0usize, 1, 3, 4] {
        let t = compute_validator_total(&state(), &p, &config(), &table(), index).unwrap();
        let source = p.source.as_ref().unwrap().contains(index);
        let target = p.target.as_ref().unwrap().contains(index);
        let head = p.head.as_ref().unwrap().contains(index);
        if !source {
            assert!(t.source <= 0);
        }
        if !target {
            assert!(t.target <= 0);
        }
        if !head {
            assert_eq!(t.head, 0);
        }
    }
}

#[test]
fn participation_contains_reads_the_index() {
    let data = FlagParticipation { total_balance: 0, participants: vec![false, true] };
    assert!(!data.contains(0));
    assert!(data.contains(1));
    assert!(!data.contains(2));
    assert!(!data.contains(usize::MAX));
}

#[test]
fn totals_follow_the_request() {
    let p = participation();
    assert_eq!(
        assemble_totals(&state(), &p, &config(), &table(), &vec![1, 2, 0, 1]),
        Ok(vec![
            total(1, 0, -3_797_534, -2_044_826),
            total(2, 0, 0, 0),
            total(0, 0, 20, 30),
            total(1, 0, -3_797_534, -2_044_826),
        ])
    );
}

#[test]
fn empty_request_means_every_eligible_validator() {
    let p = participation();
    let totals = assemble_totals(&state(), &p, &config(), &table(), &Vec::new()).unwrap();
    assert_eq!(totals, vec![total(3, 0, 0, 3), total(0, 0, 20, 30), total(1, 0, -3_797_534, -2_044_826)]);
    assert_eq!(
        Ok(totals),
        assemble_totals(&state(), &p, &config(), &table(), &p.eligible_indices)
    );
}

#[test]
fn empty_request_with_no_eligible_validator_is_empty() {
    let mut p = participation();
    p.eligible_indices = Vec::new();
    assert_eq!(assemble_totals(&state(), &p, &config(), &table(), &Vec::new()), Ok(Vec::new()));
}

#[test]
fn totals_have_no_partial_result() {
    let p = participation();
    assert_eq!(
        assemble_totals(&state(), &p, &config(), &table(), &vec![0, 1, 7, 2]),
        Err(RewardsError::ValidatorLookup(7))
    );
}

#[test]
fn totals_report_the_first_failure() {
    let mut p = participation();
    p.head = None;
    // Validator 2 is not eligible and validator 0 misses the head data; index 9 comes later.
    assert_eq!(
        assemble_totals(&state(), &p, &config(), &table(), &vec![2, 0, 9]),
        Err(RewardsError::Participation(ParticipationGap::Flag(Flag::Head)))
    );
    assert_eq!(
        assemble_totals(&state(), &p, &config(), &table(), &vec![2, 9, 0, 11]),
        Err(RewardsError::ValidatorLookup(9))
    );
}
