//! Saturating arithmetic on the fixed-width integers that the ledger state uses.
use vstd::prelude::*;

verus! {

/// `x` clamped to the range of `i64`.
pub open spec fn clamp_i64(x: int) -> int {
    if x < i64::MIN {
        i64::MIN as int
    } else if x > i64::MAX {
        i64::MAX as int
    } else {
        x
    }
}

/// `x` clamped to at most `u64::MAX`.
pub open spec fn clamp_u64(x: nat) -> nat {
    if x > u64::MAX {
        u64::MAX as nat
    } else {
        x
    }
}

/// Subtraction on `i64` that stops at the type's bounds instead of wrapping.
pub fn saturating_sub_i64(a: i64, b: i64) -> (r: i64)
    ensures
        r == clamp_i64(a - b),
{
    match a.checked_sub(b) {
        Some(d) => d,
        None => {
            if b > 0 {
                i64::MIN
            } else {
                i64::MAX
            }
        },
    }
}

/// Multiplication on `u64` that stops at `u64::MAX` instead of wrapping.
pub fn saturating_mul_u64(a: u64, b: u64) -> (r: u64)
    ensures
        r == clamp_u64(a as nat * b as nat),
{
    match a.checked_mul(b) {
        Some(p) => p,
        None => u64::MAX,
    }
}

} // verus!
