//! Risk management: stop-loss/take-profit triggers, the open-position
//! limit, and stop-loss width enforcement.

use vstd::prelude::*;
use crate::models::{Position, CloseReason};

verus! {

/// Most positions that may be open at once.
pub const MAX_OPEN_POSITIONS: u64 = 2;

/// The tightest stop-loss the clamp allows: ninety-five percent of entry,
/// rounded down to a tick.
pub open spec fn min_stop(entry: int) -> int {
    entry * 95 / 100
}

/// The stop-loss that is enforced for a proposal: the proposal itself when
/// it is no wider than five percent under entry, else the five-percent floor.
pub open spec fn spec_enforced_stop(entry: int, proposed: int) -> int {
    if proposed < min_stop(entry) {
        min_stop(entry)
    } else {
        proposed
    }
}

/// The trigger a fetched price fires on a position: the stop-loss when the
/// price is at or under it, else the take-profit when the price is at or
/// over it, else none. The stop-loss is checked first, so a position never
/// fires both in one pass.
pub open spec fn spec_trigger(pos: Position, price: u64) -> Option<CloseReason> {
    if pos.stop_loss matches Some(sl) && price <= sl {
        Some(CloseReason::StopLoss)
    } else if pos.take_profit matches Some(tp) && price >= tp {
        Some(CloseReason::TakeProfit)
    } else {
        None
    }
}

/// The positions a risk pass closes, given the price fetched for each open
/// position (`None` where the fetch failed): those whose usable price fires
/// a trigger, in position order, paired with the trigger.
pub open spec fn spec_check(positions: Seq<Position>, prices: Seq<Option<u64>>) -> Seq<
    (Position, CloseReason),
>
    decreases positions.len(),
{
    if positions.len() == 0 {
        Seq::empty()
    } else {
        let rest = spec_check(positions.drop_last(), prices.drop_last());
        let pos = positions.last();
        match prices.last() {
            Some(p) => if p > 0 {
                match spec_trigger(pos, p) {
                    Some(reason) => rest.push((pos, reason)),
                    None => rest,
                }
            } else {
                rest
            },
            None => rest,
        }
    }
}

/// The price refreshes a risk pass persists: one per open position whose
/// price was fetched and is usable, in position order.
pub open spec fn spec_price_updates(positions: Seq<Position>, prices: Seq<Option<u64>>) -> Seq<
    (String, u64),
>
    decreases positions.len(),
{
    if positions.len() == 0 {
        Seq::empty()
    } else {
        let rest = spec_price_updates(positions.drop_last(), prices.drop_last());
        match prices.last() {
            Some(p) => if p > 0 {
                rest.push((positions.last().id, p))
            } else {
                rest
            },
            None => rest,
        }
    }
}

/// Risk management: stop-loss/take-profit checking and position limits.
pub struct RiskManager;

impl RiskManager {
    /// Whether a fetched price fires a trigger on an open position.
    pub fn evaluate_position(pos: &Position, price: u64) -> (r: Option<CloseReason>)
        ensures
            r == spec_trigger(*pos, price),
    {
        match pos.stop_loss {
            Some(sl) => {
                if price <= sl {
                    return Some(CloseReason::StopLoss);
                }
            },
            None => {},
        }
        match pos.take_profit {
            Some(tp) => {
                if price >= tp {
                    return Some(CloseReason::TakeProfit);
                }
            },
            None => {},
        }
        None
    }

    /// Check every open position against the price fetched for it.
    /// Returns the positions to close with their triggers, and the price
    /// refreshes to persist; a failed or unusable price skips its position
    /// without failing the pass.
    pub fn check_positions(positions: &Vec<Position>, prices: &Vec<Option<u64>>) -> (r: (
        Vec<(Position, CloseReason)>,
        Vec<(String, u64)>,
    ))
        requires
            positions@.len() == prices@.len(),
        ensures
            r.0@ == spec_check(positions@, prices@),
            r.1@ == spec_price_updates(positions@, prices@),
    {
        let mut to_close: Vec<(Position, CloseReason)> = Vec::new();
        let mut updates: Vec<(String, u64)> = Vec::new();
        let n = positions.len();
        let mut i: usize = 0;
        while i < n
            invariant
                0 <= i <= n,
                n == positions@.len() == prices@.len(),
                to_close@ == spec_check(positions@.subrange(0, i as int), prices@.subrange(0, i as int)),
                updates@ == spec_price_updates(
                    positions@.subrange(0, i as int),
                    prices@.subrange(0, i as int),
                ),
            decreases n - i,
        {
            let ghost pp = positions@.subrange(0, i as int);
            let ghost rp = prices@.subrange(0, i as int);
            proof {
                assert(positions@.subrange(0, i + 1 as int).drop_last() =~= pp);
                assert(prices@.subrange(0, i + 1 as int).drop_last() =~= rp);
                assert(positions@.subrange(0, i + 1 as int).last() == positions@[i as int]);
                assert(prices@.subrange(0, i + 1 as int).last() == prices@[i as int]);
            }
            match prices[i] {
                Some(p) => {
                    if p > 0 {
                        updates.push((positions[i].id.clone(), p));
                        match Self::evaluate_position(&positions[i], p) {
                            Some(reason) => {
                                to_close.push((positions[i].clone(), reason));
                            },
                            None => {},
                        }
                    }
                },
                None => {},
            }
            i = i + 1;
        }
        proof {
            assert(positions@.subrange(0, n as int) =~= positions@);
            assert(prices@.subrange(0, n as int) =~= prices@);
        }
        (to_close, updates)
    }

    /// Whether a new position may be opened under the open-position limit.
    pub fn can_open_position(open_count: u64) -> (r: bool)
        ensures
            r == (open_count < MAX_OPEN_POSITIONS),
    {
        open_count < MAX_OPEN_POSITIONS
    }

    /// Clamp a proposed stop-loss to at most five percent under entry.
    pub fn validate_stop_loss(entry_price: u64, stop_loss: u64) -> (r: u64)
        ensures
            r == spec_enforced_stop(entry_price as int, stop_loss as int),
            r <= entry_price || r == stop_loss,
    {
        let wide: u128 = (entry_price as u128) * 95 / 100;
        proof {
            assert((entry_price as u128) * 95 / 100 <= entry_price) by (nonlinear_arith)
                requires
                    entry_price <= u64::MAX,
            ;
            assert((entry_price as int) * 95 / 100 == ((entry_price as u128) * 95 / 100) as int);
        }
        let floor: u64 = wide as u64;
        if stop_loss < floor {
            floor
        } else {
            stop_loss
        }
    }
}

/// The clamp never hands back a stop wider than five percent below entry:
/// the enforced stop, scaled by one hundred, clears ninety-five times the
/// entry price up to the one lost rounding tick, and never falls under the
/// tick floor.
pub proof fn lemma_stop_loss_clamped(entry: int, proposed: int)
    requires
        entry >= 0,
    ensures
        spec_enforced_stop(entry, proposed) >= min_stop(entry),
        100 * spec_enforced_stop(entry, proposed) > 95 * entry - 100,
{
    vstd::arithmetic::div_mod::lemma_fundamental_div_mod(entry * 95, 100);
    vstd::arithmetic::div_mod::lemma_mod_bound(entry * 95, 100);
}

/// Trigger thresholds are inclusive, and the stop-loss takes precedence:
/// a price equal to the stop-loss fires it; a price equal to the
/// take-profit fires it when the stop-loss does not fire; when both
/// conditions hold at once the stop-loss wins.
pub proof fn lemma_trigger_inclusive(pos: Position, price: u64)
    ensures
        pos.stop_loss == Some(price) ==> spec_trigger(pos, price) == Some(CloseReason::StopLoss),
        pos.take_profit == Some(price) && (pos.stop_loss matches Some(sl) ==> price > sl)
            ==> spec_trigger(pos, price) == Some(CloseReason::TakeProfit),
        (pos.stop_loss matches Some(sl) && price <= sl) && (pos.take_profit matches Some(tp)
            && price >= tp) ==> spec_trigger(pos, price) == Some(CloseReason::StopLoss),
{
}

} // verus!
