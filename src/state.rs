//! The persisted program state, the instruction set and the error taxonomy.
use vstd::prelude::*;

verus! {

/// Minimum wall-clock gap, in seconds, between two successful mines.
pub const MINING_COOLDOWN: i64 = 1800;

/// Energy-burst multiplier, in percent.
pub const ENERGY_BURST_BONUS: u64 = 150;

/// A slot that is a multiple of this earns the lucky bonus.
pub const LUCKY_PURR_CHANCE: u64 = 100;

/// Lucky-bonus multiplier, in percent.
pub const LUCKY_PURR_BONUS: u64 = 110;

/// Floor of the mining difficulty.
pub const MIN_DIFFICULTY: u64 = 100;

/// Length of one halving epoch, in seconds (365 days).
pub const HALVING_INTERVAL: i64 = 31_536_000;

/// Hard cap on the cumulative minted amount (50 million tokens, 9 decimals).
pub const MAX_SUPPLY: u64 = 50_000_000_000_000_000;

/// Base reward of the first halving epoch, before the difficulty divisor.
pub const INITIAL_BASE_REWARD: u64 = 10_000_000;

/// Why an instruction was refused; every refusal leaves the state untouched.
#[derive(Clone, Copy, Debug, PartialEq, Eq, Structural)]
pub enum FreshError {
    CooldownActive,
    PoopDiscovered,
    InvalidInstruction,
    DifficultyTooLow,
    MaxSupplyReached,
}

/// The numeric code under which the host runtime reports an error.
pub open spec fn error_code(e: FreshError) -> u32 {
    match e {
        FreshError::CooldownActive => 0,
        FreshError::PoopDiscovered => 1,
        FreshError::InvalidInstruction => 2,
        FreshError::DifficultyTooLow => 3,
        FreshError::MaxSupplyReached => 4,
    }
}

impl FreshError {
    /// The custom error code of this error, its position in the taxonomy.
    pub fn code(&self) -> (r: u32)
        ensures
            r == error_code(*self),
    {
        match self {
            FreshError::CooldownActive => 0,
            FreshError::PoopDiscovered => 1,
            FreshError::InvalidInstruction => 2,
            FreshError::DifficultyTooLow => 3,
            FreshError::MaxSupplyReached => 4,
        }
    }
}

/// The record the program persists between instructions.
#[derive(Clone, Copy, Debug, PartialEq, Eq, Structural)]
pub struct MrFreshState {
    pub total_supply: u64,
    pub mining_difficulty: u64,
    /// Time of the last successful mine; 0 means never mined.
    pub last_mining_timestamp: i64,
    /// Kept for the record layout; no operation updates it.
    pub total_miners: u64,
    pub total_transactions: u64,
    /// Slot of the last energy burst; 0 means never activated.
    pub last_energy_burst_slot: u64,
    pub energy_burst_duration: u64,
    pub initialization_timestamp: i64,
}

impl MrFreshState {
    /// The global invariant: supply within the cap, difficulty at or above its floor.
    pub open spec fn wf(&self) -> bool {
        &&& self.total_supply <= MAX_SUPPLY
        &&& self.mining_difficulty >= MIN_DIFFICULTY
    }
}

/// A decoded instruction.
#[derive(Clone, Copy, Debug, PartialEq, Eq, Structural)]
pub enum MrFreshInstruction {
    Initialize { mining_difficulty: u64, energy_burst_duration: u64 },
    Mine,
    UpdateDifficulty { new_difficulty: u64 },
}

} // verus!
