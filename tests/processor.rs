use mr_fresh::{
    apply_bonus, calculate_mining_reward, is_energy_burst_active, process_initialize,
    process_instruction, process_mining, process_update_difficulty, saturating_mul_u64,
    saturating_sub_i64, FreshError, MrFreshInstruction, MrFreshState, HALVING_INTERVAL,
    INITIAL_BASE_REWARD, MAX_SUPPLY, MINING_COOLDOWN,
};

fn initialized(initial_time: i64) -> MrFreshState {
    process_initialize(1000, 100, initial_time).expect("Failed to initialize state")
}

fn expected_reward(initial_time: i64, current_time: i64, mining_difficulty: u64) -> u64 {
    let time_since_start = current_time.saturating_sub(initial_time);
    let halving_epoch = time_since_start / HALVING_INTERVAL;
    let mut base = INITIAL_BASE_REWARD;
    for _ in 0..halving_epoch {
        base = base.saturating_div(2);
    }
    base.saturating_div(mining_difficulty)
}

#[test]
fn test_initialization() {
    let initial_time = 0;
    let mut state = MrFreshState {
        total_supply: 7,
        mining_difficulty: 7,
        last_mining_timestamp: 7,
        total_miners: 7,
        total_transactions: 7,
        last_energy_burst_slot: 7,
        energy_burst_duration: 7,
        initialization_timestamp: 7,
    };
    let ins = MrFreshInstruction::Initialize { mining_difficulty: 1000, energy_burst_duration: 100 };
    let result = process_instruction(&mut state, ins, initial_time, 0);
    assert!(result.is_ok(), "Failed to initialize state");
    assert_eq!(state.total_supply, 0);
    assert_eq!(state.total_transactions, 0);
    assert_eq!(state.last_mining_timestamp, 0);
    assert_eq!(state.initialization_timestamp, initial_time);
    assert_eq!(state.mining_difficulty, 1000);
    assert_eq!(state.energy_burst_duration, 100);
    assert_eq!(state.total_miners, 0);
    assert_eq!(state.last_energy_burst_slot, 0);
}

#[test]
fn test_mining_cooldown() {
    let initial_time = 1000;
    let mut state = initialized(initial_time);
    let result = process_instruction(&mut state, MrFreshInstruction::Mine, initial_time, 1);
    assert!(result.is_ok(), "First mining attempt failed");
    let cooldown_time = initial_time + (MINING_COOLDOWN - 600);
    let before = state;
    let result = process_instruction(&mut state, MrFreshInstruction::Mine, cooldown_time, 2);
    assert_eq!(result, Err(FreshError::CooldownActive), "Expected cooldown error, got: {:?}", result);
    assert_eq!(FreshError::CooldownActive.code(), 0);
    assert_eq!(state, before);
}

#[test]
fn test_halving() {
    let initial_time = 0;
    let mining_difficulty = 1000;
    let mut state = initialized(initial_time);
    let initial_reward = expected_reward(initial_time, initial_time, mining_difficulty);
    let result = process_instruction(&mut state, MrFreshInstruction::Mine, initial_time, 1);
    assert!(result.is_ok(), "Initial mining attempt failed");
    assert_eq!(state.total_supply, initial_reward);

    let time_after_halving = initial_time + HALVING_INTERVAL + 1;
    let halved_reward = expected_reward(initial_time, time_after_halving, mining_difficulty);
    assert_eq!(halved_reward, initial_reward / 2, "Halving calculation incorrect");
    assert_eq!(calculate_mining_reward(&state, time_after_halving), Ok(halved_reward));

    let result = process_instruction(&mut state, MrFreshInstruction::Mine, time_after_halving, 2);
    assert!(result.is_ok(), "Mining after halving failed");
    assert_eq!(state.total_supply, initial_reward + halved_reward);
}

#[test]
fn scenario_first_mine_at_time_zero() {
    let mut state = initialized(0);
    assert_eq!(state.total_supply, 0);
    assert_eq!(state.initialization_timestamp, 0);
    assert_eq!(process_mining(&mut state, 0, 1), Ok(10_000));
    assert_eq!(state.total_supply, 10_000);
    assert_eq!(state.total_transactions, 1);
    assert_eq!(state.last_mining_timestamp, 0);
}

#[test]
fn timestamp_zero_counts_as_never_mined() {
    let mut state = initialized(0);
    assert_eq!(process_mining(&mut state, 0, 1), Ok(10_000));
    assert_eq!(process_mining(&mut state, 0, 1), Ok(10_000));
    assert_eq!(state.total_supply, 20_000);
    assert_eq!(state.total_transactions, 2);
}

#[test]
fn scenario_immediate_second_mine_is_cooled_down() {
    let mut state = initialized(5);
    assert_eq!(process_mining(&mut state, 5, 1), Ok(10_000));
    let before = state;
    assert_eq!(process_mining(&mut state, 5, 1), Err(FreshError::CooldownActive));
    assert_eq!(state, before);
    assert_eq!(
        process_mining(&mut state, 5 + MINING_COOLDOWN - 1, 3),
        Err(FreshError::CooldownActive)
    );
    assert_eq!(process_mining(&mut state, 5 + MINING_COOLDOWN, 3), Ok(10_000));
}

#[test]
fn scenario_one_halving() {
    let mut state = initialized(0);
    assert_eq!(calculate_mining_reward(&state, HALVING_INTERVAL), Ok(5_000));
    // the slot is a multiple of 100, so the lucky bonus applies on top
    assert_eq!(process_mining(&mut state, HALVING_INTERVAL, 1_000_000_000), Ok(5_500));
    assert_eq!(state.total_supply, 5_500);
}

#[test]
fn scenario_poop_discovered() {
    let mut state = initialized(0);
    let before = state;
    assert_eq!(process_mining(&mut state, 0, 10), Err(FreshError::PoopDiscovered));
    assert_eq!(state, before);
    assert_eq!(process_mining(&mut state, 0, 990), Err(FreshError::PoopDiscovered));
    assert_eq!(process_mining(&mut state, 0, 1010), Ok(10_000));
}

#[test]
fn slot_zero_is_no_poop() {
    let mut state = initialized(0);
    // slot 0 is divisible by 41 and by 100: both bonuses apply
    assert_eq!(process_mining(&mut state, 0, 0), Ok(16_500));
    assert_eq!(state.last_energy_burst_slot, 0);
}

#[test]
fn scenario_update_difficulty_too_low() {
    let mut state = initialized(0);
    let before = state;
    let ins = MrFreshInstruction::UpdateDifficulty { new_difficulty: 50 };
    assert_eq!(process_instruction(&mut state, ins, 0, 0), Err(FreshError::DifficultyTooLow));
    assert_eq!(state, before);
    assert_eq!(FreshError::DifficultyTooLow.code(), 3);
}

#[test]
fn update_difficulty_replaces_only_difficulty() {
    let mut state = initialized(0);
    assert_eq!(process_mining(&mut state, 0, 1), Ok(10_000));
    let before = state;
    assert_eq!(process_update_difficulty(&mut state, 100), Ok(()));
    assert_eq!(state.mining_difficulty, 100);
    assert_eq!(state.total_supply, before.total_supply);
    assert_eq!(state.last_mining_timestamp, before.last_mining_timestamp);
    assert_eq!(state.total_transactions, before.total_transactions);
    assert_eq!(process_mining(&mut state, 2000, 1), Ok(100_000));
}

#[test]
fn initialize_difficulty_too_low() {
    assert_eq!(process_initialize(99, 100, 0), Err(FreshError::DifficultyTooLow));
    assert!(process_initialize(100, 100, 0).is_ok());
    let mut state = initialized(0);
    let before = state;
    let ins = MrFreshInstruction::Initialize { mining_difficulty: 50, energy_burst_duration: 1 };
    assert_eq!(process_instruction(&mut state, ins, 9, 9), Err(FreshError::DifficultyTooLow));
    assert_eq!(state, before);
}

#[test]
fn energy_burst_bonus_and_gap() {
    let mut state = initialized(0);
    assert_eq!(process_mining(&mut state, 0, 41), Ok(15_000));
    assert_eq!(state.last_energy_burst_slot, 41);
    assert_eq!(process_mining(&mut state, 2000, 2091), Ok(15_000));
    assert_eq!(state.last_energy_burst_slot, 2091);
    // 41 slots after the last burst is below the burst duration of 100
    assert_eq!(process_mining(&mut state, 4000, 2091 + 41), Ok(10_000));
    assert_eq!(state.last_energy_burst_slot, 2091);
}

#[test]
fn burst_check_values() {
    let mut state = initialized(0);
    assert!(is_energy_burst_active(41, &state));
    assert!(!is_energy_burst_active(42, &state));
    state.last_energy_burst_slot = 41;
    assert!(!is_energy_burst_active(82, &state));
    assert!(is_energy_burst_active(164, &state));
    // a slot before the last burst counts as no gap
    state.last_energy_burst_slot = 500;
    assert!(!is_energy_burst_active(410, &state));
    state.energy_burst_duration = 0;
    assert!(is_energy_burst_active(410, &state));
}

#[test]
fn lucky_bonus() {
    let mut state = initialized(0);
    assert_eq!(process_mining(&mut state, 0, 1100), Ok(11_000));
}

#[test]
fn both_bonuses_compose_in_order() {
    let mut state = initialized(0);
    assert_eq!(process_mining(&mut state, 0, 4100), Ok(16_500));
    assert_eq!(state.last_energy_burst_slot, 4100);
}

#[test]
fn bonus_rounding_multiplies_first() {
    assert_eq!(apply_bonus(3, 150), 4);
    assert_eq!(apply_bonus(9, 110), 9);
    assert_eq!(apply_bonus(10, 110), 11);
    assert_eq!(apply_bonus(u64::MAX, 150), u64::MAX / 100);
}

#[test]
fn supply_is_clamped_at_cap() {
    let mut state = initialized(0);
    state.total_supply = MAX_SUPPLY - 5;
    assert_eq!(process_mining(&mut state, 0, 1), Ok(5));
    assert_eq!(state.total_supply, MAX_SUPPLY);
    let before = state;
    assert_eq!(process_mining(&mut state, 5000, 1), Err(FreshError::MaxSupplyReached));
    assert_eq!(state, before);
}

#[test]
fn schedule_exhausted_after_many_halvings() {
    let state = initialized(0);
    assert_eq!(calculate_mining_reward(&state, 23 * HALVING_INTERVAL), Ok(0));
    assert_eq!(
        calculate_mining_reward(&state, 24 * HALVING_INTERVAL),
        Err(FreshError::MaxSupplyReached)
    );
    let far = initialized(i64::MIN);
    assert_eq!(calculate_mining_reward(&far, i64::MAX), Err(FreshError::MaxSupplyReached));
}

#[test]
fn halving_epochs_exact_values() {
    let state = initialized(100);
    assert_eq!(calculate_mining_reward(&state, 100), Ok(10_000));
    assert_eq!(calculate_mining_reward(&state, 100 + HALVING_INTERVAL - 1), Ok(10_000));
    assert_eq!(calculate_mining_reward(&state, 100 + 2 * HALVING_INTERVAL), Ok(2_500));
    assert_eq!(calculate_mining_reward(&state, 100 + 3 * HALVING_INTERVAL), Ok(1_250));
    assert!(
        calculate_mining_reward(&state, 100 + 4 * HALVING_INTERVAL).unwrap()
            <= calculate_mining_reward(&state, 100 + 3 * HALVING_INTERVAL).unwrap()
    );
}

#[test]
fn time_before_initialization_counts_as_zero() {
    let state = initialized(1_000_000);
    assert_eq!(calculate_mining_reward(&state, -5), Ok(10_000));
}

#[test]
fn counters_never_decrease() {
    let mut state = initialized(0);
    let mut supply = state.total_supply;
    let mut txs = state.total_transactions;
    let mut now = 1;
    for slot in [1u64, 10, 41, 1100, 7, 4100] {
        let _ = process_instruction(&mut state, MrFreshInstruction::Mine, now, slot);
        assert!(state.total_supply >= supply);
        assert!(state.total_transactions >= txs);
        supply = state.total_supply;
        txs = state.total_transactions;
        now += MINING_COOLDOWN;
    }
    assert_eq!(state.total_transactions, 5);
}

#[test]
fn transactions_saturate() {
    let mut state = initialized(0);
    state.total_transactions = u64::MAX;
    assert!(process_mining(&mut state, 0, 1).is_ok());
    assert_eq!(state.total_transactions, u64::MAX);
}

#[test]
fn error_codes() {
    assert_eq!(FreshError::CooldownActive.code(), 0);
    assert_eq!(FreshError::PoopDiscovered.code(), 1);
    assert_eq!(FreshError::InvalidInstruction.code(), 2);
    assert_eq!(FreshError::DifficultyTooLow.code(), 3);
    assert_eq!(FreshError::MaxSupplyReached.code(), 4);
}

#[test]
fn saturating_primitives() {
    assert_eq!(saturating_sub_i64(5, 7), -2);
    assert_eq!(saturating_sub_i64(i64::MAX, -1), i64::MAX);
    assert_eq!(saturating_sub_i64(i64::MIN, 1), i64::MIN);
    assert_eq!(saturating_mul_u64(3, 7), 21);
    assert_eq!(saturating_mul_u64(u64::MAX, 2), u64::MAX);
}
