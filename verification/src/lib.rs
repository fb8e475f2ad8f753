//! A yield-bearing pooled-asset accounting engine: a vault that mints and
//! burns proportional claim shares against a pooled balance with a
//! manipulation-resistant exchange rate, a lending market with a kink-based
//! interest rate model and per-borrower weighted debt accrual, a manager for
//! oracle-priced leveraged positions, and a liquidation engine.
//!
//! The engine works on plain integer values. Everything that touches a
//! ledger, a clock or an oracle account lives outside: callers read those,
//! hand the engine the numbers, and perform the transfers that the engine's
//! receipts describe. Every operation either completes and returns a receipt
//! or fails and leaves its state untouched.

use vstd::prelude::*;

pub mod errors;
pub mod oracle;
pub mod vault;
pub mod market;
pub mod position;
pub mod liquidation;
pub mod laws;

verus! {

/// Fixed-point scale for prices and the vault exchange rate (1.0 == 1_000_000).
pub const SCALE: u64 = 1_000_000;

/// Denominator for basis-point fractions (100% == 10_000 bps).
pub const BPS_DENOM: u64 = 10_000;

/// Fixed-point scale for the lending market's interest index (1.0 == 1e9).
pub const RATE_SCALE: u128 = 1_000_000_000;

/// Seconds in a (365-day) year, used by the per-second interest accrual.
pub const SECONDS_PER_YEAR: u64 = 31_536_000;

/// Delay between proposing and executing a market pause.
pub const PAUSE_TIMELOCK_SECONDS: u64 = 86_400;

/// The basis-point fraction `x * bps / 10_000`, rounded down.
pub open spec fn bps_of(x: int, bps: int) -> int {
    x * bps / (BPS_DENOM as int)
}

/// A scaled fraction `x * num / den` with `num <= den` never exceeds `x`.
pub proof fn lemma_mul_div_le(x: int, num: int, den: int)
    requires
        0 <= x,
        0 <= num <= den,
        0 < den,
    ensures
        0 <= x * num / den <= x,
{
    vstd::arithmetic::mul::lemma_mul_nonnegative(x, num);
    vstd::arithmetic::div_mod::lemma_div_pos_is_pos(x * num, den);
    vstd::arithmetic::mul::lemma_mul_inequality(num, den, x);
    vstd::arithmetic::mul::lemma_mul_is_commutative(x, num);
    vstd::arithmetic::mul::lemma_mul_is_commutative(x, den);
    vstd::arithmetic::div_mod::lemma_div_is_ordered(x * num, x * den, den);
    vstd::arithmetic::div_mod::lemma_div_multiples_vanish(x, den);
    vstd::arithmetic::mul::lemma_mul_is_commutative(den, x);
}

/// A basis-point fraction of a non-negative value stays within it.
pub proof fn lemma_bps_le(x: int, bps: int)
    requires
        0 <= x,
        0 <= bps <= BPS_DENOM,
    ensures
        0 <= bps_of(x, bps) <= x,
{
    lemma_mul_div_le(x, bps, BPS_DENOM as int);
}

/// A scaled fraction is monotone in its first factor.
pub proof fn lemma_mul_div_mono(x: int, y: int, m: int, d: int)
    requires
        0 <= x <= y,
        0 <= m,
        0 < d,
    ensures
        0 <= x * m / d <= y * m / d,
{
    vstd::arithmetic::mul::lemma_mul_nonnegative(x, m);
    vstd::arithmetic::div_mod::lemma_div_pos_is_pos(x * m, d);
    vstd::arithmetic::mul::lemma_mul_inequality(x, y, m);
    vstd::arithmetic::div_mod::lemma_div_is_ordered(x * m, y * m, d);
}

/// Bounded factors give a bounded product.
pub proof fn lemma_mul_fits(a: int, b: int, a_bound: int, b_bound: int)
    by (nonlinear_arith)
    requires
        0 <= a <= a_bound,
        0 <= b <= b_bound,
    ensures
        0 <= a * b <= a_bound * b_bound,
{
}

} // verus!
