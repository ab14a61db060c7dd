//! The arbitrage evaluator: the strict profit-threshold decision.

use vstd::prelude::*;
use crate::amounts::{FixedDecimal, lemma_same_scale_gt};

verus! {

/// An observation is a profitable opportunity exactly when its profit is
/// strictly greater than the minimum-profit threshold.
pub open spec fn spec_is_opportunity(profit: FixedDecimal, min_profit: FixedDecimal) -> bool {
    profit.value_gt(min_profit)
}

/// Decides whether a profit makes an opportunity: true if and only if
/// `profit > min_profit` as decimal values. The comparison is strict, so a
/// profit exactly equal to the threshold is not an opportunity. Both values
/// carry the same scale (they are denominated in the same reference asset),
/// under which the value comparison is exactly the unit-count comparison.
pub fn is_opportunity(profit: FixedDecimal, min_profit: FixedDecimal) -> (r: bool)
    requires
        profit.scale == min_profit.scale,
    ensures
        r == spec_is_opportunity(profit, min_profit),
        r == (profit.units > min_profit.units),
{
    proof {
        lemma_same_scale_gt(profit, min_profit);
    }
    profit.units > min_profit.units
}

} // verus!
