//! Fixed-point money model.
//!
//! Balances, prices, order sizes and quantities are `u64` counts of `UNIT`ths:
//! one quote-currency unit (one USDC) is `UNIT` ticks. Profit and loss, which
//! can be negative and is a product of a price difference and a quantity, is
//! carried as `i128` ticks.

use vstd::prelude::*;

verus! {

/// Ticks per whole quote-currency unit: amounts have eight decimal places.
pub const UNIT: u64 = 100_000_000;

/// Largest tick count the engine accepts for a single amount, price or
/// quantity. Keeping every operand at or below this bound keeps every
/// product this crate forms inside `i128`/`u128` range.
pub const AMOUNT_MAX: u64 = 1_000_000_000_000_000_000;

/// An amount, price or quantity the engine is willing to compute with.
pub open spec fn amount_ok(v: u64) -> bool {
    v <= AMOUNT_MAX
}

} // verus!
