//! The instruction processor: one pure transition per instruction, all or
//! nothing.
use vstd::prelude::*;
use crate::reward::{
    apply_bonus, bonus_reward, burst_active, calculate_mining_reward,
    is_energy_burst_active, lemma_difficulty_reward_bounded, supply_exhausted,
};
use crate::state::{
    FreshError, MrFreshInstruction, MrFreshState, ENERGY_BURST_BONUS, LUCKY_PURR_BONUS,
    LUCKY_PURR_CHANCE, MAX_SUPPLY, MINING_COOLDOWN, MIN_DIFFICULTY,
};

verus! {

/// The state that a successful Initialize writes.
pub open spec fn initial_state(
    mining_difficulty: u64,
    energy_burst_duration: u64,
    now: i64,
) -> MrFreshState {
    MrFreshState {
        total_supply: 0,
        mining_difficulty,
        last_mining_timestamp: 0,
        total_miners: 0,
        total_transactions: 0,
        last_energy_burst_slot: 0,
        energy_burst_duration,
        initialization_timestamp: now,
    }
}

/// A previous mine is less than the cooldown ago.
pub open spec fn cooldown_active(s: MrFreshState, now: i64) -> bool {
    s.last_mining_timestamp != 0 && now - s.last_mining_timestamp < MINING_COOLDOWN
}

/// The early-slot failure window: a nonzero multiple of 10 below 1000.
pub open spec fn poop_discovered(slot: u64) -> bool {
    slot != 0 && slot % 10 == 0 && slot < 1000
}

/// Why a Mine at `now` and `slot` fails, if it does; the gates are tried in
/// order: cooldown, early-slot failure, exhausted supply.
pub open spec fn mine_error(s: MrFreshState, now: i64, slot: u64) -> Option<FreshError> {
    if cooldown_active(s, now) {
        Some(FreshError::CooldownActive)
    } else if poop_discovered(slot) {
        Some(FreshError::PoopDiscovered)
    } else if supply_exhausted(s, now) {
        Some(FreshError::MaxSupplyReached)
    } else {
        None
    }
}

/// The amount a successful Mine mints: the bonus reward, cut down so that the
/// supply lands exactly on the cap when it would pass it.
pub open spec fn mined_amount(s: MrFreshState, now: i64, slot: u64) -> nat {
    let r = bonus_reward(s, now, slot);
    if s.total_supply + r > MAX_SUPPLY {
        (MAX_SUPPLY - s.total_supply) as nat
    } else {
        r
    }
}

/// The state after a successful Mine.
pub open spec fn after_mining(s: MrFreshState, now: i64, slot: u64) -> MrFreshState {
    MrFreshState {
        total_supply: (s.total_supply + mined_amount(s, now, slot)) as u64,
        mining_difficulty: s.mining_difficulty,
        last_mining_timestamp: now,
        total_miners: s.total_miners,
        total_transactions: if s.total_transactions == u64::MAX {
            u64::MAX
        } else {
            (s.total_transactions + 1) as u64
        },
        last_energy_burst_slot: if burst_active(s, slot) {
            slot
        } else {
            s.last_energy_burst_slot
        },
        energy_burst_duration: s.energy_burst_duration,
        initialization_timestamp: s.initialization_timestamp,
    }
}

/// The state after a successful UpdateDifficulty.
pub open spec fn with_difficulty(s: MrFreshState, d: u64) -> MrFreshState {
    MrFreshState { mining_difficulty: d, ..s }
}

/// What one instruction does to a state: the next state, or the error.
pub open spec fn transition(
    s: MrFreshState,
    ins: MrFreshInstruction,
    now: i64,
    slot: u64,
) -> Result<MrFreshState, FreshError> {
    match ins {
        MrFreshInstruction::Initialize { mining_difficulty, energy_burst_duration } => {
            if mining_difficulty < MIN_DIFFICULTY {
                Err(FreshError::DifficultyTooLow)
            } else {
                Ok(initial_state(mining_difficulty, energy_burst_duration, now))
            }
        },
        MrFreshInstruction::Mine => match mine_error(s, now, slot) {
            Some(e) => Err(e),
            None => Ok(after_mining(s, now, slot)),
        },
        MrFreshInstruction::UpdateDifficulty { new_difficulty } => {
            if new_difficulty < MIN_DIFFICULTY {
                Err(FreshError::DifficultyTooLow)
            } else {
                Ok(with_difficulty(s, new_difficulty))
            }
        },
    }
}

/// A fresh state with the given difficulty and burst duration, anchored at
/// `current_time`; `DifficultyTooLow` below the difficulty floor.
pub fn process_initialize(
    mining_difficulty: u64,
    energy_burst_duration: u64,
    current_time: i64,
) -> (r: Result<MrFreshState, FreshError>)
    ensures
        r == (if mining_difficulty < MIN_DIFFICULTY {
            Err(FreshError::DifficultyTooLow)
        } else {
            Ok(initial_state(mining_difficulty, energy_burst_duration, current_time))
        }),
{
    if mining_difficulty < MIN_DIFFICULTY {
        return Err(FreshError::DifficultyTooLow);
    }
    Ok(
        MrFreshState {
            total_supply: 0,
            mining_difficulty,
            last_mining_timestamp: 0,
            total_miners: 0,
            total_transactions: 0,
            last_energy_burst_slot: 0,
            energy_burst_duration,
            initialization_timestamp: current_time,
        },
    )
}

/// Mines at `current_time` and `slot`: on success returns the minted amount
/// and commits the new state; on failure leaves the state as it was.
pub fn process_mining(state: &mut MrFreshState, current_time: i64, slot: u64) -> (r: Result<
    u64,
    FreshError,
>)
    requires
        old(state).mining_difficulty > 0,
    ensures
        match mine_error(*old(state), current_time, slot) {
            Some(e) => r == Err::<u64, FreshError>(e) && *final(state) == *old(state),
            None => r == Ok::<u64, FreshError>(mined_amount(*old(state), current_time, slot) as u64)
                && *final(state) == after_mining(*old(state), current_time, slot),
        },
{
    let time_since_last = crate::arith::saturating_sub_i64(
        current_time,
        state.last_mining_timestamp,
    );
    if state.last_mining_timestamp != 0 && time_since_last < MINING_COOLDOWN {
        return Err(FreshError::CooldownActive);
    }
    if slot != 0 && slot % 10 == 0 && slot < 1000 {
        return Err(FreshError::PoopDiscovered);
    }
    let mut reward = match calculate_mining_reward(state, current_time) {
        Ok(r) => r,
        Err(e) => return Err(e),
    };
    proof {
        lemma_difficulty_reward_bounded(*state, current_time);
    }
    let burst = is_energy_burst_active(slot, state);
    if burst {
        reward = apply_bonus(reward, ENERGY_BURST_BONUS);
    }
    if slot % LUCKY_PURR_CHANCE == 0 {
        reward = apply_bonus(reward, LUCKY_PURR_BONUS);
    }
    assert(reward == bonus_reward(*state, current_time, slot));
    if state.total_supply.saturating_add(reward) > MAX_SUPPLY {
        reward = MAX_SUPPLY.saturating_sub(state.total_supply);
    }
    if burst {
        state.last_energy_burst_slot = slot;
    }
    state.last_mining_timestamp = current_time;
    state.total_supply = state.total_supply.saturating_add(reward);
    state.total_transactions = state.total_transactions.saturating_add(1);
    Ok(reward)
}

/// Replaces the difficulty; `DifficultyTooLow`, with the state untouched,
/// below the floor.
pub fn process_update_difficulty(state: &mut MrFreshState, new_difficulty: u64) -> (r: Result<
    (),
    FreshError,
>)
    ensures
        new_difficulty < MIN_DIFFICULTY ==> r == Err::<(), FreshError>(FreshError::DifficultyTooLow)
            && *final(state) == *old(state),
        new_difficulty >= MIN_DIFFICULTY ==> r == Ok::<(), FreshError>(())
            && *final(state) == with_difficulty(*old(state), new_difficulty),
{
    if new_difficulty < MIN_DIFFICULTY {
        return Err(FreshError::DifficultyTooLow);
    }
    state.mining_difficulty = new_difficulty;
    Ok(())
}

/// Runs one instruction against the state at `current_time` and `slot`: the
/// state becomes the transition's next state, or stays as it was when the
/// instruction fails.
pub fn process_instruction(
    state: &mut MrFreshState,
    instruction: MrFreshInstruction,
    current_time: i64,
    slot: u64,
) -> (r: Result<(), FreshError>)
    requires
        instruction is Mine ==> old(state).mining_difficulty > 0,
    ensures
        match transition(*old(state), instruction, current_time, slot) {
            Ok(next) => r == Ok::<(), FreshError>(()) && *final(state) == next,
            Err(e) => r == Err::<(), FreshError>(e) && *final(state) == *old(state),
        },
{
    match instruction {
        MrFreshInstruction::Initialize { mining_difficulty, energy_burst_duration } => {
            match process_initialize(mining_difficulty, energy_burst_duration, current_time) {
                Ok(fresh) => {
                    *state = fresh;
                    Ok(())
                },
                Err(e) => Err(e),
            }
        },
        MrFreshInstruction::Mine => match process_mining(state, current_time, slot) {
            Ok(_) => Ok(()),
            Err(e) => Err(e),
        },
        MrFreshInstruction::UpdateDifficulty { new_difficulty } => {
            process_update_difficulty(state, new_difficulty)
        },
    }
}

} // verus!
