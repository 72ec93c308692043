//! Position sizing: map available balance and the oracle's confidence to an
//! order size in quote-currency ticks.

use vstd::prelude::*;
use crate::money::UNIT;

verus! {

/// Smallest order the exchange accepts: five quote-currency units.
pub const MIN_ORDER: u64 = 5 * 100_000_000;

/// Fraction of the tradeable balance to commit, as a percentage, by
/// confidence bracket.
pub open spec fn confidence_percent(confidence: int) -> int {
    if 90 <= confidence && confidence <= 100 {
        10
    } else if 80 <= confidence && confidence <= 89 {
        6
    } else if 70 <= confidence && confidence <= 79 {
        3
    } else {
        0
    }
}

/// Balance that may be traded once the reserve floor is set aside.
pub open spec fn tradeable_of(balance: int, min_balance: int) -> int {
    if balance > min_balance {
        balance - min_balance
    } else {
        0
    }
}

/// The position size: the bracket's percentage of the tradeable balance,
/// floored to zero when it falls under the exchange minimum.
pub open spec fn position_size(balance: int, confidence: int, min_balance: int) -> int {
    let amount = tradeable_of(balance, min_balance) * confidence_percent(confidence) / 100;
    if amount < MIN_ORDER as int {
        0
    } else {
        amount
    }
}

/// Position sizing based on the oracle's confidence level: higher confidence
/// commits a larger share of the tradeable balance, up to ten percent.
pub struct PositionSizer;

impl PositionSizer {
    /// Order size in quote-currency ticks for the given balance and
    /// confidence, with `min_balance` ticks held back as a reserve.
    /// Returns 0 whenever the balance is at or under the reserve, whenever
    /// confidence is under 70, and whenever the sized order would fall under
    /// the exchange minimum.
    pub fn calculate(balance_usdc: u64, confidence: i32, min_balance: u64) -> (size: u64)
        ensures
            size == position_size(balance_usdc as int, confidence as int, min_balance as int),
            balance_usdc <= min_balance ==> size == 0,
            confidence < 70 ==> size == 0,
            size <= balance_usdc,
    {
        let tradeable: u64 = if balance_usdc > min_balance {
            balance_usdc - min_balance
        } else {
            0
        };

        let percentage: u64 = if confidence >= 90 && confidence <= 100 {
            10
        } else if confidence >= 80 && confidence <= 89 {
            6
        } else if confidence >= 70 && confidence <= 79 {
            3
        } else {
            0
        };

        assert((tradeable as u128) * (percentage as u128) <= (u64::MAX as u128) * 10) by (nonlinear_arith)
            requires
                tradeable <= u64::MAX,
                percentage <= 10,
        ;
        let product: u128 = (tradeable as u128) * (percentage as u128);
        let wide: u128 = product / 100;
        assert(wide <= tradeable) by (nonlinear_arith)
            requires
                wide == (tradeable as u128) * (percentage as u128) / 100,
                tradeable <= u64::MAX,
                percentage <= 10,
        ;
        let size: u64 = wide as u64;

        if size < MIN_ORDER {
            return 0;
        }

        size
    }
}

/// The size is non-decreasing in confidence: a more confident decision never
/// commits less, for confidences inside the oracle's 0 to 100 scale.
pub proof fn lemma_size_monotone_in_confidence(balance: int, c1: int, c2: int, min_balance: int)
    requires
        c1 <= c2 <= 100,
    ensures
        position_size(balance, c1, min_balance) <= position_size(balance, c2, min_balance),
{
    let t = tradeable_of(balance, min_balance);
    let p1 = confidence_percent(c1);
    let p2 = confidence_percent(c2);
    assert(p1 <= p2);
    assert(t >= 0);
    assert(t * p1 <= t * p2) by (nonlinear_arith)
        requires
            t >= 0,
            p1 <= p2,
    ;
    vstd::arithmetic::div_mod::lemma_div_is_ordered(t * p1, t * p2, 100);
}

/// Under 70 confidence the sizer always answers zero: an effective HOLD.
pub proof fn lemma_size_zero_below_70(balance: int, confidence: int, min_balance: int)
    requires
        confidence < 70,
    ensures
        position_size(balance, confidence, min_balance) == 0,
{
}

/// A balance at or under the reserve floor always sizes to zero.
pub proof fn lemma_size_zero_at_reserve(balance: int, confidence: int, min_balance: int)
    requires
        balance <= min_balance,
    ensures
        position_size(balance, confidence, min_balance) == 0,
{
}

} // verus!
