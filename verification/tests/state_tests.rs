use rewards_sim::types::{Config, PrintingOutput, Proportion, State, StateTotals, Validator};

fn sample_config() -> Config {
    Config {
        epochs: 12,
        total_at_stake_initial: 3200,
        max_effective_balance: 32,
        base_reward_factor: 64,
        base_rewards_per_epoch: 4,
        head_ffg_proportion: Proportion { numerator: 1, denominator: 1 },
        proposer_proportion: Proportion { numerator: 1, denominator: 8 },
        attester_proportion: Proportion { numerator: 7, denominator: 8 },
        printing_output: PrintingOutput::Epoch,
    }
}

fn get_dummy_validator(
    balance: u64,
    effective_balance: u64,
    is_active: bool,
    is_slashed: bool,
) -> Validator {
    Validator {
        balance: balance,
        effective_balance: effective_balance,
        is_active: is_active,
        is_slashed: is_slashed,
    }
}

fn fixture_state() -> State {
    let mut state = State::new(sample_config());
    state.validators = vec![];
    state
        .validators
        .push(get_dummy_validator(100, 16, true, true));
    state
        .validators
        .push(get_dummy_validator(200, 18, true, false));
    state
        .validators
        .push(get_dummy_validator(300, 30, true, false));
    state
        .validators
        .push(get_dummy_validator(400, 40, false, false));
    state
}

#[test]
fn new_state() {}

#[test]
fn new_state_totals() {
    let state = fixture_state();

    let totals = StateTotals::new(&state);

    assert_eq!(totals.staked_balance, 1000);
    assert_eq!(totals.active_balance, 64);
    assert_eq!(totals.sqrt_active_balance, 8);
    assert_eq!(totals.active_validators, 3);
    assert_eq!(totals.matching_balance, 48);
    assert_eq!(totals.max_balance, 400);
    assert_eq!(totals.min_balance, 100);
}

#[test]
fn genesis_state_has_one_validator_per_maximum_balance() {
    let state = State::new(sample_config());
    assert_eq!(state.validators.len(), 100);
    for v in &state.validators {
        assert_eq!(v.balance, 32);
        assert_eq!(v.effective_balance, 32);
        assert!(v.is_active);
        assert!(!v.is_slashed);
    }
}

#[test]
fn genesis_leaves_the_remainder_out() {
    let mut config = sample_config();
    config.total_at_stake_initial = 3231;
    let state = State::new(config);
    assert_eq!(state.validators.len(), 100);
}

#[test]
fn genesis_totals() {
    let state = State::new(sample_config());
    let totals = StateTotals::new(&state);
    assert_eq!(totals.staked_balance, 3200);
    assert_eq!(totals.active_balance, 3200);
    assert_eq!(totals.sqrt_active_balance, 56);
    assert_eq!(totals.matching_balance, 3200);
    assert_eq!(totals.active_validators, 100);
    assert_eq!(totals.max_balance, 32);
    assert_eq!(totals.min_balance, 32);
}

#[test]
fn single_queries_on_the_fixture() {
    let state = fixture_state();
    assert_eq!(state.get_total_staked_balance(), 1000);
    assert_eq!(state.get_total_active_balance(), 64);
    assert_eq!(state.get_total_active_validators(), 3);
    assert_eq!(state.get_matching_balance(), 48);
    assert_eq!(state.get_max_balance(), 400);
    assert_eq!(state.get_min_balance(), 100);
}

#[test]
fn repeated_queries_agree() {
    let state = fixture_state();
    let first = StateTotals::new(&state);
    let second = StateTotals::new(&state);
    assert_eq!(first, second);
    assert_eq!(state.get_max_balance(), state.get_max_balance());
    assert_eq!(state.get_total_staked_balance(), state.get_total_staked_balance());
}

#[test]
fn empty_state_defaults() {
    let mut state = State::new(sample_config());
    state.validators = vec![];
    assert_eq!(state.get_max_balance(), 0);
    assert_eq!(state.get_min_balance(), u64::MAX);
    assert_eq!(state.get_total_staked_balance(), 0);
    let totals = StateTotals::new(&state);
    assert_eq!(totals.sqrt_active_balance, 0);
}

#[test]
fn square_root_is_rounded_down() {
    let mut state = State::new(sample_config());
    state.validators = vec![get_dummy_validator(1, 80, true, false)];
    assert_eq!(StateTotals::new(&state).sqrt_active_balance, 8);
    state.validators = vec![get_dummy_validator(1, 81, true, false)];
    assert_eq!(StateTotals::new(&state).sqrt_active_balance, 9);
    state.validators = vec![get_dummy_validator(1, u64::MAX, true, false)];
    assert_eq!(StateTotals::new(&state).sqrt_active_balance, 4294967295);
}

#[test]
fn checked_snapshot_reports_a_sum_that_does_not_fit() {
    let mut state = State::new(sample_config());
    state.validators = vec![
        get_dummy_validator(u64::MAX, 1, true, false),
        get_dummy_validator(1, 1, true, false),
    ];
    assert_eq!(
        StateTotals::checked_new(&state),
        Err(rewards_sim::types::SimError::Arithmetic)
    );
    state.validators = vec![
        get_dummy_validator(u64::MAX - 1, 1, true, false),
        get_dummy_validator(1, 1, true, false),
    ];
    let totals = StateTotals::checked_new(&state).unwrap();
    assert_eq!(totals.staked_balance, u64::MAX);
    assert_eq!(totals.active_balance, 2);
    assert_eq!(totals.sqrt_active_balance, 1);
}
