//! State-transition engine of a token-emission program: a halving reward
//! schedule, a per-state mining cooldown, slot-keyed bonuses and a hard
//! supply cap, each operation a pure function of the persisted state, the
//! instruction and the trusted time source.
use vstd::prelude::*;

pub mod arith;
pub mod laws;
pub mod processor;
pub mod reward;
pub mod state;

pub use arith::{saturating_mul_u64, saturating_sub_i64};
pub use processor::{
    process_initialize, process_instruction, process_mining, process_update_difficulty,
};
pub use reward::{apply_bonus, calculate_mining_reward, is_energy_burst_active};
pub use state::{
    FreshError, MrFreshInstruction, MrFreshState, ENERGY_BURST_BONUS, HALVING_INTERVAL,
    INITIAL_BASE_REWARD, LUCKY_PURR_BONUS, LUCKY_PURR_CHANCE, MAX_SUPPLY, MINING_COOLDOWN,
    MIN_DIFFICULTY,
};
