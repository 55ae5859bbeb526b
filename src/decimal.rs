//! Fixed-point decimals with eighteen fractional digits, and the exact
//! integer arithmetic built on them.

use vstd::prelude::*;
use vstd::arithmetic::div_mod::{
    lemma_div_is_ordered, lemma_fundamental_div_mod, lemma_fundamental_div_mod_converse,
    lemma_mod_bound,
};
use vstd::arithmetic::mul::{lemma_mul_inequality, lemma_mul_is_distributive_sub};

verus! {

/// The scale of a [`Decimal`]: the number of atomics in one whole unit.
pub const DECIMAL_FRACTIONAL: u128 = 1_000_000_000_000_000_000;

/// A non-negative fixed-point number `atomics / 10^18`.
#[derive(Clone, Copy, Debug, PartialEq, Eq, Structural)]
pub struct Decimal {
    pub atomics: u128,
}

/// `floor(a * b / d)`: the exact value of a scaled product.
pub open spec fn floor_ratio(a: int, b: int, d: int) -> int {
    (a * b) / d
}

/// `ceil(a * b / d)`.
pub open spec fn ceil_ratio(a: int, b: int, d: int) -> int {
    (a * b + d - 1) / d
}

/// `floor(weight * amount)` where it fits an unsigned 128-bit amount.
pub open spec fn weighted_amount(weight: Decimal, amount: u128) -> Option<u128> {
    let v = floor_ratio(amount as int, weight.atomics as int, DECIMAL_FRACTIONAL as int);
    if v <= u128::MAX {
        Some(v as u128)
    } else {
        None
    }
}

impl Decimal {
    /// `x` percent.
    pub fn percent(x: u64) -> (r: Decimal)
        ensures
            r.atomics == x * 10_000_000_000_000_000,
    {
        Decimal { atomics: (x as u128) * 10_000_000_000_000_000 }
    }

    /// The decimal `1`.
    pub fn one() -> (r: Decimal)
        ensures
            r.atomics == DECIMAL_FRACTIONAL,
    {
        Decimal { atomics: DECIMAL_FRACTIONAL }
    }

    /// The decimal `0`.
    pub fn zero() -> (r: Decimal)
        ensures
            r.atomics == 0,
    {
        Decimal { atomics: 0 }
    }

    /// The decimal with the given number of atomics.
    pub fn raw(atomics: u128) -> (r: Decimal)
        ensures
            r.atomics == atomics,
    {
        Decimal { atomics }
    }

    pub fn is_zero(&self) -> (r: bool)
        ensures
            r == (self.atomics == 0),
    {
        self.atomics == 0
    }

    /// `1 - self`, for a decimal no greater than one.
    pub fn complement(&self) -> (r: Decimal)
        requires
            self.atomics <= DECIMAL_FRACTIONAL,
        ensures
            r.atomics == DECIMAL_FRACTIONAL - self.atomics,
    {
        Decimal { atomics: DECIMAL_FRACTIONAL - self.atomics }
    }
}

/// Relies on `cosmwasm_std::Uint128::checked_multiply_ratio`: it multiplies in
/// 256 bits, divides by a non-zero denominator rounding down, and fails only
/// when the quotient does not fit 128 bits.
#[verifier::external_body]
fn multiply_ratio(amount: u128, numerator: u128, denominator: u128) -> (r: Option<u128>)
    requires
        denominator > 0,
    ensures
        r == (if floor_ratio(amount as int, numerator as int, denominator as int) <= u128::MAX {
            Some(floor_ratio(amount as int, numerator as int, denominator as int) as u128)
        } else {
            None::<u128>
        }),
{
    cosmwasm_std::Uint128::new(amount).checked_multiply_ratio(numerator, denominator).ok().map(
        |v| v.u128(),
    )
}

/// `weight * amount`, rounded down; `None` where the product overflows.
pub fn mul_floor(weight: Decimal, amount: u128) -> (r: Option<u128>)
    ensures
        r == weighted_amount(weight, amount),
{
    multiply_ratio(amount, weight.atomics, DECIMAL_FRACTIONAL)
}

pub proof fn lemma_floor_ratio_le(a: int, b: int, d: int)
    requires
        a >= 0,
        0 <= b <= d,
        d > 0,
    ensures
        0 <= floor_ratio(a, b, d) <= a,
{
    lemma_mul_inequality(b, d, a);
    assert(b * a == a * b && d * a == a * d) by (nonlinear_arith);
    assert(a * b >= 0) by (nonlinear_arith)
        requires
            a >= 0,
            b >= 0,
    ;
    lemma_div_is_ordered(a * b, a * d, d);
    lemma_div_is_ordered(0, a * b, d);
    assert((a * d) / d == a) by {
        lemma_fundamental_div_mod_converse(a * d, d, a, 0);
    }
}

/// A rounded-up product reaches the exact one: `ceil(a*b/d) * d >= a*b`.
pub proof fn lemma_ceil_ratio_reaches(a: int, b: int, d: int)
    requires
        a >= 0,
        b >= 0,
        d > 0,
    ensures
        ceil_ratio(a, b, d) * d >= a * b,
{
    let x = a * b + d - 1;
    lemma_fundamental_div_mod(x, d);
    lemma_mod_bound(x, d);
    assert(ceil_ratio(a, b, d) == x / d);
    assert((x / d) * d == d * (x / d)) by (nonlinear_arith);
}

/// Rounding up through the complement: `ceil(a*q/d) == a - floor(a*(d-q)/d)`.
proof fn lemma_ceil_by_complement(a: int, q: int, d: int)
    requires
        a >= 0,
        0 <= q <= d,
        d > 0,
    ensures
        ceil_ratio(a, q, d) == a - floor_ratio(a, d - q, d),
{
    let b = a * (d - q);
    lemma_fundamental_div_mod(b, d);
    lemma_mod_bound(b, d);
    lemma_mul_is_distributive_sub(a, d, q);
    let m = b % d;
    let k = b / d;
    assert(a * q + d - 1 == (a - k) * d + (d - 1 - m)) by (nonlinear_arith)
        requires
            b == a * (d - q),
            b == d * k + m,
            a * (d - q) == a * d - a * q,
    ;
    lemma_fundamental_div_mod_converse(a * q + d - 1, d, a - k, d - 1 - m);
}

/// `amount * fraction`, rounded down, for a fraction no greater than one.
pub fn fraction_of(amount: u128, fraction: Decimal) -> (r: u128)
    requires
        fraction.atomics <= DECIMAL_FRACTIONAL,
    ensures
        r as int == floor_ratio(amount as int, fraction.atomics as int, DECIMAL_FRACTIONAL as int),
        r <= amount,
{
    proof {
        lemma_floor_ratio_le(amount as int, fraction.atomics as int, DECIMAL_FRACTIONAL as int);
    }
    match multiply_ratio(amount, fraction.atomics, DECIMAL_FRACTIONAL) {
        Some(v) => v,
        None => 0,
    }
}

/// The least whole number of votes that reaches `percentage` of `weight`:
/// `ceil(weight * percentage)`.
pub fn votes_needed(weight: u128, percentage: Decimal) -> (r: u128)
    requires
        percentage.atomics <= DECIMAL_FRACTIONAL,
    ensures
        r as int == ceil_ratio(weight as int, percentage.atomics as int, DECIMAL_FRACTIONAL as int),
{
    let rest = DECIMAL_FRACTIONAL - percentage.atomics;
    proof {
        lemma_floor_ratio_le(weight as int, rest as int, DECIMAL_FRACTIONAL as int);
        lemma_ceil_by_complement(
            weight as int,
            percentage.atomics as int,
            DECIMAL_FRACTIONAL as int,
        );
    }
    let below = multiply_ratio(weight, rest, DECIMAL_FRACTIONAL);
    match below {
        Some(v) => weight - v,
        None => 0,
    }
}

} // verus!
