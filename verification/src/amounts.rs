//! Fixed-point amounts and normalization.
//!
//! Token amounts travel as unsigned integers in the token's smallest unit.
//! A decimal value (a profit, a trade size in whole asset units) is held as
//! the exact rational `units / 10^scale`, never as a float.

use vstd::prelude::*;
use vstd::arithmetic::mul::{lemma_mul_inequality, lemma_mul_strict_inequality};

verus! {

/// Largest amount (in smallest units) the profit arithmetic accepts; this is
/// `i128::MAX`, so that the difference of any two accepted amounts fits `i128`.
pub const MAX_AMOUNT_UNITS: u128 = 170141183460469231731687303715884105727;

/// Largest decimal count the normalization scaling supports.
pub const MAX_DECIMALS: u32 = 18;

/// `10^n`.
pub open spec fn pow10(n: nat) -> nat
    decreases n,
{
    if n == 0 {
        1
    } else {
        10 * pow10((n - 1) as nat)
    }
}

pub proof fn lemma_pow10_pos(n: nat)
    ensures
        pow10(n) >= 1,
    decreases n,
{
    if n > 0 {
        lemma_pow10_pos((n - 1) as nat);
    }
}

/// A fixed-point decimal: the exact rational number `units / 10^scale`.
#[derive(Clone, Copy, PartialEq, Eq, Structural, Debug)]
pub struct FixedDecimal {
    pub units: i128,
    pub scale: u32,
}

impl FixedDecimal {
    /// The rational value of `self` is strictly greater than that of `other`
    /// (compared by cross-multiplying with the positive factors `10^scale`).
    pub open spec fn value_gt(self, other: FixedDecimal) -> bool {
        self.units * pow10(other.scale as nat) > other.units * pow10(self.scale as nat)
    }

    /// `self` and `other` denote the same rational number.
    pub open spec fn same_value(self, other: FixedDecimal) -> bool {
        self.units * pow10(other.scale as nat) == other.units * pow10(self.scale as nat)
    }
}

/// Normalization of an integer amount of smallest units into whole asset
/// units: the decimal value `units / 10^decimals`, represented exactly.
pub open spec fn spec_normalize(units: i128, decimals: u32) -> FixedDecimal {
    FixedDecimal { units, scale: decimals }
}

/// Converts `units` smallest units into the exact decimal `units / 10^decimals`.
pub fn normalize(units: i128, decimals: u32) -> (r: FixedDecimal)
    ensures
        r == spec_normalize(units, decimals),
{
    FixedDecimal { units, scale: decimals }
}

/// At a common scale, the value order of two fixed-point decimals is exactly
/// the order of their unit counts: scaling by the positive factor `10^scale`
/// neither creates nor hides a difference.
pub proof fn lemma_same_scale_gt(a: FixedDecimal, b: FixedDecimal)
    requires
        a.scale == b.scale,
    ensures
        a.value_gt(b) <==> a.units > b.units,
{
    lemma_pow10_pos(a.scale as nat);
    let p = pow10(a.scale as nat) as int;
    if a.units > b.units {
        lemma_mul_strict_inequality(b.units as int, a.units as int, p);
    }
    if a.units <= b.units {
        lemma_mul_inequality(a.units as int, b.units as int, p);
    }
}

/// Normalization is exact for every supported scale: two amounts of smallest
/// units denote the same decimal value if and only if they are equal. No
/// rounding of any kind happens on the way to whole asset units.
pub proof fn lemma_normalize_exact(x: i128, y: i128, d: u32)
    ensures
        spec_normalize(x, d).same_value(spec_normalize(y, d)) <==> x == y,
{
    lemma_pow10_pos(d as nat);
    let p = pow10(d as nat) as int;
    if x < y {
        lemma_mul_strict_inequality(x as int, y as int, p);
    }
    if y < x {
        lemma_mul_strict_inequality(y as int, x as int, p);
    }
}

/// Normalization is linear: at a common scale, the decimal value of a sum of
/// amounts is the sum of their decimal values (the unit counts simply add).
pub proof fn lemma_normalize_linear(x: i128, y: i128, d: u32)
    requires
        i128::MIN <= x + y <= i128::MAX,
    ensures
        spec_normalize((x + y) as i128, d).units == spec_normalize(x, d).units + spec_normalize(
            y,
            d,
        ).units,
        spec_normalize((x + y) as i128, d).scale == d,
{
}

} // verus!
