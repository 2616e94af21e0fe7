//! Properties of the transition function that hold for every input: the
//! supply cap, the difficulty floor, monotone counters, the cooldown, the
//! halving schedule and the supply clamp.
use vstd::prelude::*;
use vstd::arithmetic::div_mod::{lemma_div_by_multiple, lemma_div_denominator, lemma_div_is_ordered};
use vstd::arithmetic::power::lemma_pow0;
use vstd::arithmetic::power2::{lemma_pow2_pos, lemma_pow2_unfold, pow2};
use crate::processor::{initial_state, mined_amount, transition};
use crate::reward::{
    base_reward_at, bonus_reward, difficulty_reward, halving_epoch, lemma_base_reward_antitone,
};
use crate::state::{
    MrFreshInstruction, MrFreshState, HALVING_INTERVAL, INITIAL_BASE_REWARD, MAX_SUPPLY,
    MINING_COOLDOWN, MIN_DIFFICULTY,
};

verus! {

/// The state after running each `(instruction, time, slot)` of `steps` in
/// order, a failed instruction leaving the state as it was.
pub open spec fn run(s: MrFreshState, steps: Seq<(MrFreshInstruction, i64, u64)>) -> MrFreshState
    decreases steps.len(),
{
    if steps.len() == 0 {
        s
    } else {
        let prev = run(s, steps.drop_last());
        let (ins, now, slot) = steps.last();
        match transition(prev, ins, now, slot) {
            Ok(next) => next,
            Err(_) => prev,
        }
    }
}

/// One instruction never takes the supply past the cap.
pub proof fn lemma_transition_within_cap(
    s: MrFreshState,
    ins: MrFreshInstruction,
    now: i64,
    slot: u64,
)
    requires
        s.total_supply <= MAX_SUPPLY,
    ensures
        transition(s, ins, now, slot) matches Ok(next) ==> next.total_supply <= MAX_SUPPLY,
{
}

/// From a state within the supply cap, such as a freshly initialised one,
/// every sequence of instructions reaches only states within the cap.
pub proof fn lemma_supply_within_cap(s: MrFreshState, steps: Seq<(MrFreshInstruction, i64, u64)>)
    requires
        s.total_supply <= MAX_SUPPLY,
    ensures
        run(s, steps).total_supply <= MAX_SUPPLY,
    decreases steps.len(),
{
    if steps.len() > 0 {
        lemma_supply_within_cap(s, steps.drop_last());
        let (ins, now, slot) = steps.last();
        lemma_transition_within_cap(run(s, steps.drop_last()), ins, now, slot);
    }
}

/// A successful Initialize or UpdateDifficulty leaves the difficulty at or
/// above its floor, and no instruction brings it below the floor.
pub proof fn lemma_difficulty_floor(s: MrFreshState, ins: MrFreshInstruction, now: i64, slot: u64)
    ensures
        (ins is Initialize || ins is UpdateDifficulty) ==> (transition(s, ins, now, slot) matches Ok(
            next,
        ) ==> next.mining_difficulty >= MIN_DIFFICULTY),
        s.mining_difficulty >= MIN_DIFFICULTY ==> (transition(s, ins, now, slot) matches Ok(next)
            ==> next.mining_difficulty >= MIN_DIFFICULTY),
{
}

/// Every sequence of instructions keeps a well-formed state well-formed.
pub proof fn lemma_run_keeps_wf(s: MrFreshState, steps: Seq<(MrFreshInstruction, i64, u64)>)
    requires
        s.wf(),
    ensures
        run(s, steps).wf(),
    decreases steps.len(),
{
    if steps.len() > 0 {
        lemma_run_keeps_wf(s, steps.drop_last());
        let (ins, now, slot) = steps.last();
        lemma_transition_within_cap(run(s, steps.drop_last()), ins, now, slot);
        lemma_difficulty_floor(run(s, steps.drop_last()), ins, now, slot);
    }
}

/// Every state reached from a successful Initialize, through any sequence of
/// instructions, has its supply within the cap and its difficulty at or above
/// the floor.
pub proof fn lemma_reachable_wf(
    mining_difficulty: u64,
    energy_burst_duration: u64,
    now: i64,
    steps: Seq<(MrFreshInstruction, i64, u64)>,
)
    requires
        mining_difficulty >= MIN_DIFFICULTY,
    ensures
        run(initial_state(mining_difficulty, energy_burst_duration, now), steps).wf(),
        0 <= run(initial_state(mining_difficulty, energy_burst_duration, now), steps).total_supply
            <= MAX_SUPPLY,
{
    lemma_run_keeps_wf(initial_state(mining_difficulty, energy_burst_duration, now), steps);
}

/// Neither the transaction count nor the supply ever decreases over a
/// sequence of instructions that holds no Initialize, such as successive
/// Mine calls.
pub proof fn lemma_counters_monotone(s: MrFreshState, steps: Seq<(MrFreshInstruction, i64, u64)>)
    requires
        forall|i: int| 0 <= i < steps.len() ==> !(#[trigger] steps[i].0 is Initialize),
    ensures
        run(s, steps).total_transactions >= s.total_transactions,
        run(s, steps).total_supply >= s.total_supply,
    decreases steps.len(),
{
    if steps.len() > 0 {
        let prefix = steps.drop_last();
        assert forall|i: int| 0 <= i < prefix.len() implies !(#[trigger] prefix[i].0 is Initialize) by {
            assert(prefix[i] == steps[i]);
        }
        lemma_counters_monotone(s, prefix);
        assert(!(steps[steps.len() - 1].0 is Initialize));
    }
}

/// After a successful Mine at a nonzero time `t`, every Mine at a time in
/// `[t, t + MINING_COOLDOWN)` fails with `CooldownActive` and leaves the state
/// as it is.
pub proof fn lemma_cooldown(
    s: MrFreshState,
    t: i64,
    slot: u64,
    later: i64,
    later_slot: u64,
)
    requires
        transition(s, MrFreshInstruction::Mine, t, slot) is Ok,
        t != 0,
        t <= later < t + MINING_COOLDOWN,
    ensures
        ({
            let next = transition(s, MrFreshInstruction::Mine, t, slot)->Ok_0;
            &&& transition(next, MrFreshInstruction::Mine, later, later_slot) == Err::<
                MrFreshState,
                crate::state::FreshError,
            >(crate::state::FreshError::CooldownActive)
            &&& run(next, seq![(MrFreshInstruction::Mine, later, later_slot)]) == next
        }),
{
    let next = transition(s, MrFreshInstruction::Mine, t, slot)->Ok_0;
    let steps = seq![(MrFreshInstruction::Mine, later, later_slot)];
    assert(steps.drop_last() =~= Seq::<(MrFreshInstruction, i64, u64)>::empty());
    assert(run(next, steps.drop_last()) == next);
    assert(steps.last() == (MrFreshInstruction::Mine, later, later_slot));
    assert(next.last_mining_timestamp == t);
    assert(transition(next, MrFreshInstruction::Mine, later, later_slot) is Err);
}

/// The base reward of epoch `k` is the initial reward divided by `2^k`.
pub proof fn lemma_base_reward_closed_form(k: nat)
    ensures
        base_reward_at(k) == INITIAL_BASE_REWARD as nat / pow2(k),
    decreases k,
{
    if k == 0 {
        lemma_pow0(2);
        assert(pow2(0) == 1);
    } else {
        lemma_base_reward_closed_form((k - 1) as nat);
        lemma_pow2_unfold(k);
        lemma_pow2_pos((k - 1) as nat);
        lemma_div_denominator(INITIAL_BASE_REWARD as int, pow2((k - 1) as nat) as int, 2);
        assert(pow2((k - 1) as nat) * 2 == pow2(k)) by (nonlinear_arith)
            requires
                pow2(k) == 2 * pow2((k - 1) as nat),
        ;
        assert(base_reward_at(k) == base_reward_at((k - 1) as nat) / 2);
        assert(base_reward_at(k) == INITIAL_BASE_REWARD as nat / pow2((k - 1) as nat) / 2);
    }
}

/// At exactly `k` halving intervals after initialisation, the reward before
/// bonuses is `INITIAL_BASE_REWARD / 2^k / D` for difficulty `D`, and the
/// reward of epoch `k + 1` is no larger than that of epoch `k`.
pub proof fn lemma_halving(s: MrFreshState, now: i64, k: nat)
    requires
        s.mining_difficulty > 0,
        now == s.initialization_timestamp + k * HALVING_INTERVAL,
    ensures
        halving_epoch(s.initialization_timestamp, now) == k,
        difficulty_reward(s, now) == INITIAL_BASE_REWARD as nat / pow2(k) / (
        s.mining_difficulty as nat),
        INITIAL_BASE_REWARD as nat / pow2(k + 1) / (s.mining_difficulty as nat)
            <= INITIAL_BASE_REWARD as nat / pow2(k) / (s.mining_difficulty as nat),
{
    if k > 0 {
        assert(k * HALVING_INTERVAL > 0) by (nonlinear_arith)
            requires
                k > 0,
        ;
        lemma_div_by_multiple(k as int, HALVING_INTERVAL as int);
    }
    lemma_base_reward_closed_form(k);
    lemma_base_reward_closed_form(k + 1);
    lemma_base_reward_antitone(k, k + 1);
    lemma_div_is_ordered(
        base_reward_at(k + 1) as int,
        base_reward_at(k) as int,
        s.mining_difficulty as int,
    );
}

/// When the bonus reward would take the supply past the cap, a successful
/// Mine lands the supply exactly on the cap.
pub proof fn lemma_clamp(s: MrFreshState, now: i64, slot: u64)
    requires
        s.total_supply + bonus_reward(s, now, slot) > MAX_SUPPLY,
        transition(s, MrFreshInstruction::Mine, now, slot) is Ok,
    ensures
        transition(s, MrFreshInstruction::Mine, now, slot)->Ok_0.total_supply == MAX_SUPPLY,
{
    assert(mined_amount(s, now, slot) == MAX_SUPPLY - s.total_supply);
}

} // verus!
