//! The reward schedule: halving of the base reward, the difficulty divisor and
//! the two slot-keyed bonuses.
use vstd::prelude::*;
use crate::arith::{clamp_u64, saturating_mul_u64, saturating_sub_i64};
use crate::state::{
    FreshError, MrFreshState, ENERGY_BURST_BONUS, HALVING_INTERVAL, INITIAL_BASE_REWARD,
    LUCKY_PURR_BONUS, LUCKY_PURR_CHANCE, MAX_SUPPLY,
};

verus! {

/// The base reward of halving epoch `k`: the initial reward halved `k` times,
/// each time rounding down.
pub open spec fn base_reward_at(k: nat) -> nat
    decreases k,
{
    if k == 0 {
        INITIAL_BASE_REWARD as nat
    } else {
        base_reward_at((k - 1) as nat) / 2
    }
}

/// Number of full halving intervals between `init` and `now`; none when `now`
/// is not after `init`.
pub open spec fn halving_epoch(init: i64, now: i64) -> nat {
    if now > init {
        ((now - init) / (HALVING_INTERVAL as int)) as nat
    } else {
        0
    }
}

/// The base reward in force at time `now` for a state initialised at `init`.
pub open spec fn base_reward(s: MrFreshState, now: i64) -> nat {
    base_reward_at(halving_epoch(s.initialization_timestamp, now))
}

/// The reward before bonuses: the base reward divided by the difficulty.
pub open spec fn difficulty_reward(s: MrFreshState, now: i64) -> nat {
    base_reward(s, now) / (s.mining_difficulty as nat)
}

/// Nothing more can be mined: the cap is reached or the schedule has run out.
pub open spec fn supply_exhausted(s: MrFreshState, now: i64) -> bool {
    s.total_supply >= MAX_SUPPLY || base_reward(s, now) == 0
}

/// The energy burst fires on a slot divisible by 41, once at least the burst
/// duration has passed since the last burst (or there was none).
pub open spec fn burst_active(s: MrFreshState, slot: u64) -> bool {
    let since: int = if slot >= s.last_energy_burst_slot {
        slot - s.last_energy_burst_slot
    } else {
        0
    };
    (s.last_energy_burst_slot == 0 || since >= s.energy_burst_duration) && slot % 41 == 0
}

/// The lucky bonus fires on every slot divisible by the lucky chance.
pub open spec fn lucky(slot: u64) -> bool {
    slot % LUCKY_PURR_CHANCE == 0
}

/// `r` scaled by `percent` per cent: saturating multiply, then floor division.
pub open spec fn scaled(r: nat, percent: nat) -> nat {
    clamp_u64(r * percent) / 100
}

/// The reward after the energy burst and then the lucky bonus.
pub open spec fn bonus_reward(s: MrFreshState, now: i64, slot: u64) -> nat {
    let r0 = difficulty_reward(s, now);
    let r1 = if burst_active(s, slot) {
        scaled(r0, ENERGY_BURST_BONUS as nat)
    } else {
        r0
    };
    if lucky(slot) {
        scaled(r1, LUCKY_PURR_BONUS as nat)
    } else {
        r1
    }
}

/// Once the base reward is zero it stays zero in every later epoch.
pub proof fn lemma_base_reward_zero_persists(i: nat, j: nat)
    requires
        i <= j,
        base_reward_at(i) == 0,
    ensures
        base_reward_at(j) == 0,
    decreases j - i,
{
    if i < j {
        lemma_base_reward_zero_persists(i, (j - 1) as nat);
    }
}

/// The schedule is exhausted from the 24th epoch on.
pub proof fn lemma_base_reward_exhausted(k: nat)
    requires
        k >= 24,
    ensures
        base_reward_at(k) == 0,
{
    reveal_with_fuel(base_reward_at, 25);
    assert(base_reward_at(24) == 0);
    lemma_base_reward_zero_persists(24, k);
}

/// The base reward never grows from one epoch to the next.
pub proof fn lemma_base_reward_antitone(i: nat, j: nat)
    requires
        i <= j,
    ensures
        base_reward_at(j) <= base_reward_at(i),
    decreases j - i,
{
    if i < j {
        lemma_base_reward_antitone(i, (j - 1) as nat);
    }
}

/// The reward before bonuses never exceeds the initial base reward.
pub proof fn lemma_difficulty_reward_bounded(s: MrFreshState, now: i64)
    requires
        s.mining_difficulty > 0,
    ensures
        difficulty_reward(s, now) <= base_reward(s, now) <= INITIAL_BASE_REWARD,
{
    lemma_base_reward_antitone(0, halving_epoch(s.initialization_timestamp, now));
    assert(base_reward(s, now) / (s.mining_difficulty as nat) <= base_reward(s, now)) by (
    nonlinear_arith)
        requires
            s.mining_difficulty > 0,
    ;
}

/// The base reward in force at `now`, or `MaxSupplyReached` when the cap is
/// reached or the halving schedule is exhausted; the base is then divided by
/// the state's difficulty.
pub fn calculate_mining_reward(state: &MrFreshState, current_time: i64) -> (r: Result<
    u64,
    FreshError,
>)
    requires
        state.mining_difficulty > 0,
    ensures
        r == (if supply_exhausted(*state, current_time) {
            Err(FreshError::MaxSupplyReached)
        } else {
            Ok(difficulty_reward(*state, current_time) as u64)
        }),
{
    if state.total_supply >= MAX_SUPPLY {
        return Err(FreshError::MaxSupplyReached);
    }
    let time_since_start = saturating_sub_i64(current_time, state.initialization_timestamp);
    let epoch: u64 = if time_since_start > 0 {
        (time_since_start / HALVING_INTERVAL) as u64
    } else {
        0
    };
    proof {
        let true_epoch = halving_epoch(state.initialization_timestamp, current_time);
        if current_time - state.initialization_timestamp > i64::MAX {
            assert(time_since_start == i64::MAX);
            assert(epoch >= 24);
            assert(true_epoch >= 24) by (nonlinear_arith)
                requires
                    true_epoch == (current_time - state.initialization_timestamp) / 31_536_000int,
                    current_time - state.initialization_timestamp > i64::MAX,
            ;
            lemma_base_reward_exhausted(epoch as nat);
            lemma_base_reward_exhausted(true_epoch);
        } else {
            assert(epoch == true_epoch);
        }
    }
    let mut base: u64 = INITIAL_BASE_REWARD;
    let mut i: u64 = 0;
    while i < epoch && base > 0
        invariant
            i <= epoch,
            base == base_reward_at(i as nat),
        decreases epoch - i,
    {
        base = base / 2;
        i = i + 1;
    }
    if i < epoch {
        proof {
            lemma_base_reward_zero_persists(i as nat, epoch as nat);
        }
    }
    if base == 0 {
        return Err(FreshError::MaxSupplyReached);
    }
    Ok(base / state.mining_difficulty)
}

/// Whether the energy burst fires at `slot` for this state.
pub fn is_energy_burst_active(slot: u64, state: &MrFreshState) -> (r: bool)
    ensures
        r == burst_active(*state, slot),
{
    let slot_since_last = slot.saturating_sub(state.last_energy_burst_slot);
    let mod_check = slot % 41 == 0;
    let duration_check = state.last_energy_burst_slot == 0 || slot_since_last
        >= state.energy_burst_duration;
    duration_check && mod_check
}

/// `reward` scaled by `percent` per cent, multiplying before dividing so that
/// the fraction survives the integer division.
pub fn apply_bonus(reward: u64, percent: u64) -> (r: u64)
    ensures
        r == scaled(reward as nat, percent as nat),
{
    saturating_mul_u64(reward, percent) / 100
}

} // verus!
