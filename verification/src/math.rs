//! Checked arithmetic used by every instruction.
//!
//! All counter updates are overflow-checked; fee and curve computations go
//! through 128-bit intermediates so that a result is rejected only when it
//! does not fit in 64 bits.

use vstd::prelude::*;

verus! {

/// Failure of a checked arithmetic operation.
#[derive(Clone, Copy, PartialEq, Eq, Structural, Debug)]
pub enum ArithError {
    Overflow,
    Underflow,
    DivisionByZero,
}

/// `⌊a·b / d⌋` over the unbounded integers.
pub open spec fn spec_mul_div_floor(a: int, b: int, d: int) -> int {
    (a * b) / d
}

/// `⌈a·b / d⌉` over the unbounded integers (for non-negative `a·b`, `d > 0`).
pub open spec fn spec_mul_div_ceil(a: int, b: int, d: int) -> int {
    (a * b + d - 1) / d
}

/// Basis-point fee: `⌊amount·bps / 10_000⌋`.
pub open spec fn spec_bps(amount: int, bps: int) -> int {
    (amount * bps) / 10000
}

/// Product of two `u64`s never overflows a `u128`.
proof fn lemma_u64_product_fits(a: u64, b: u64)
    ensures
        a * b <= 0xfffffffffffffffe_0000000000000001,
        a * b >= 0,
{
    assert(a * b <= 0xffffffffffffffff * 0xffffffffffffffff) by (nonlinear_arith)
        requires
            a <= 0xffffffffffffffff,
            b <= 0xffffffffffffffff,
    ;
    assert(a * b >= 0) by (nonlinear_arith);
}

/// `⌊a·b / d⌋`, rejecting division by zero and results over `u64::MAX`.
pub fn mul_div_floor(a: u64, b: u64, d: u64) -> (r: Result<u64, ArithError>)
    ensures
        match r {
            Ok(v) => d > 0 && v == spec_mul_div_floor(a as int, b as int, d as int)
                && v <= u64::MAX,
            Err(e) => (d == 0 && e == ArithError::DivisionByZero) || (d > 0
                && spec_mul_div_floor(a as int, b as int, d as int) > u64::MAX
                && e == ArithError::Overflow),
        },
{
    if d == 0 {
        return Err(ArithError::DivisionByZero);
    }
    proof {
        lemma_u64_product_fits(a, b);
    }
    let p: u128 = (a as u128) * (b as u128);
    let q: u128 = p / (d as u128);
    if q > u64::MAX as u128 {
        Err(ArithError::Overflow)
    } else {
        Ok(q as u64)
    }
}

/// `⌈a·b / d⌉`, rejecting division by zero and results over `u64::MAX`.
pub fn mul_div_ceil(a: u64, b: u64, d: u64) -> (r: Result<u64, ArithError>)
    ensures
        match r {
            Ok(v) => d > 0 && v == spec_mul_div_ceil(a as int, b as int, d as int)
                && v <= u64::MAX,
            Err(e) => (d == 0 && e == ArithError::DivisionByZero) || (d > 0
                && spec_mul_div_ceil(a as int, b as int, d as int) > u64::MAX
                && e == ArithError::Overflow),
        },
{
    if d == 0 {
        return Err(ArithError::DivisionByZero);
    }
    proof {
        lemma_u64_product_fits(a, b);
    }
    let p: u128 = (a as u128) * (b as u128);
    let q: u128 = (p + (d - 1) as u128) / (d as u128);
    if q > u64::MAX as u128 {
        Err(ArithError::Overflow)
    } else {
        Ok(q as u64)
    }
}

/// Basis-point fee with `bps ≤ 10_000`: the fee always fits and never
/// exceeds the amount.
pub fn bps_fee(amount: u64, bps: u16) -> (r: u64)
    requires
        bps <= 10000,
    ensures
        r == spec_bps(amount as int, bps as int),
        r <= amount,
{
    proof {
        lemma_u64_product_fits(amount, bps as u64);
    }
    let p: u128 = (amount as u128) * (bps as u128);
    let q: u128 = p / 10000u128;
    proof {
        assert(p <= amount * 10000) by (nonlinear_arith)
            requires
                p == amount * bps,
                bps <= 10000,
                amount >= 0,
        ;
        assert(amount * 10000 / 10000 == amount) by (nonlinear_arith);
        assert(p / 10000 <= amount * 10000 / 10000) by (nonlinear_arith)
            requires
                p <= amount * 10000,
                p >= 0,
        ;
    }
    q as u64
}

} // verus!
