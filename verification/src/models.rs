//! Data model of the engine: lifecycle, positions, trades, cycle records,
//! the oracle's decision, and the exchange's wire shapes.
//!
//! Every monetary field is a fixed-point tick count (see `money`); the store
//! and the exchange adapters convert at the edges. Identifiers and creation
//! times are assigned by the store and are not part of the engine's model.

use vstd::prelude::*;
use crate::money::{amount_ok, UNIT};
use crate::text::{spec_parse_amount, parse_amount};
use vstd::utf8::encode_utf8;

verus! {

// ─── Actions and labels ──────────────────────────────────

#[derive(Clone, Copy, Debug, PartialEq, Eq, Structural)]
pub enum TradingAction {
    Buy,
    Sell,
    Hold,
}

impl TradingAction {
    /// The uppercase wire label of the action.
    pub fn label(&self) -> (r: &'static str)
        ensures
            *self is Buy ==> r@ == "BUY"@,
            *self is Sell ==> r@ == "SELL"@,
            *self is Hold ==> r@ == "HOLD"@,
    {
        match self {
            TradingAction::Buy => "BUY",
            TradingAction::Sell => "SELL",
            TradingAction::Hold => "HOLD",
        }
    }
}

/// The action column of a cycle record: a decision's action, or the error
/// marker of a failed cycle.
#[derive(Clone, Copy, Debug, PartialEq, Eq, Structural)]
pub enum LogAction {
    Buy,
    Sell,
    Hold,
    Error,
}

impl LogAction {
    /// The uppercase store label of the action.
    pub fn label(&self) -> (r: &'static str)
        ensures
            *self is Buy ==> r@ == "BUY"@,
            *self is Sell ==> r@ == "SELL"@,
            *self is Hold ==> r@ == "HOLD"@,
            *self is Error ==> r@ == "ERROR"@,
    {
        match self {
            LogAction::Buy => "BUY",
            LogAction::Sell => "SELL",
            LogAction::Hold => "HOLD",
            LogAction::Error => "ERROR",
        }
    }
}

/// Why a position was closed.
#[derive(Clone, Copy, Debug, PartialEq, Eq, Structural)]
pub enum CloseReason {
    StopLoss,
    TakeProfit,
    SellDecision,
}

impl CloseReason {
    /// The uppercase store label of the reason.
    pub fn label(&self) -> (r: &'static str)
        ensures
            *self is StopLoss ==> r@ == "STOP_LOSS"@,
            *self is TakeProfit ==> r@ == "TAKE_PROFIT"@,
            *self is SellDecision ==> r@ == "SELL_DECISION"@,
    {
        match self {
            CloseReason::StopLoss => "STOP_LOSS",
            CloseReason::TakeProfit => "TAKE_PROFIT",
            CloseReason::SellDecision => "SELL_DECISION",
        }
    }
}

/// How a cycle's execution step came out.
#[derive(Clone, Copy, Debug, PartialEq, Eq, Structural)]
pub enum CycleResult {
    Win,
    Loss,
    Hold,
    SkippedMaxPositions,
    SkippedInsufficientSize,
    SkippedNoOpenPosition,
    BuyExecuted,
}

impl CycleResult {
    /// The store label of the result.
    pub fn label(&self) -> (r: &'static str)
        ensures
            *self is Win ==> r@ == "WIN"@,
            *self is Loss ==> r@ == "LOSS"@,
            *self is Hold ==> r@ == "HOLD"@,
            *self is SkippedMaxPositions ==> r@ == "SKIPPED: max positions"@,
            *self is SkippedInsufficientSize ==> r@ == "SKIPPED: insufficient size"@,
            *self is SkippedNoOpenPosition ==> r@ == "SKIPPED: no open position"@,
            *self is BuyExecuted ==> r@ == "BUY executed"@,
    {
        match self {
            CycleResult::Win => "WIN",
            CycleResult::Loss => "LOSS",
            CycleResult::Hold => "HOLD",
            CycleResult::SkippedMaxPositions => "SKIPPED: max positions",
            CycleResult::SkippedInsufficientSize => "SKIPPED: insufficient size",
            CycleResult::SkippedNoOpenPosition => "SKIPPED: no open position",
            CycleResult::BuyExecuted => "BUY executed",
        }
    }
}

// ─── Bot lifecycle ───────────────────────────────────────

/// The bot's lifecycle record. Once dead, cycles are no-ops until an
/// explicit revive.
pub struct BotStatus {
    pub is_dead: bool,
    pub death_reason: Option<String>,
}

impl BotStatus {
    /// A dead bot always carries the reason it died.
    pub open spec fn wf(&self) -> bool {
        self.is_dead ==> self.death_reason is Some
    }
}

// ─── Positions and trades ────────────────────────────────

#[derive(Clone, Copy, Debug, PartialEq, Eq, Structural)]
pub enum PositionStatus {
    Open,
    Closed,
}

/// An exchange position held by the bot.
pub struct Position {
    pub id: String,
    pub symbol: String,
    pub side: TradingAction,
    pub quantity: u64,
    pub entry_price: u64,
    pub current_price: Option<u64>,
    pub stop_loss: Option<u64>,
    pub take_profit: Option<u64>,
    pub status: PositionStatus,
    pub pnl: Option<i128>,
}

impl Position {
    /// Amounts in range, a trade side rather than HOLD, and the closed
    /// fields set exactly on closed positions.
    pub open spec fn wf(&self) -> bool {
        &&& amount_ok(self.quantity)
        &&& amount_ok(self.entry_price)
        &&& self.current_price matches Some(p) ==> amount_ok(p)
        &&& self.stop_loss matches Some(p) ==> amount_ok(p)
        &&& self.take_profit matches Some(p) ==> amount_ok(p)
        &&& self.side !is Hold
        &&& (self.pnl is Some <==> self.status is Closed)
    }
}

impl Clone for Position {
    /// An exact copy.
    fn clone(&self) -> (r: Self)
        ensures
            r == *self,
    {
        let r = Position {
            id: self.id.clone(),
            symbol: self.symbol.clone(),
            side: self.side,
            quantity: self.quantity,
            entry_price: self.entry_price,
            current_price: self.current_price,
            stop_loss: self.stop_loss,
            take_profit: self.take_profit,
            status: self.status,
            pnl: self.pnl,
        };
        r
    }
}

/// An immutable record of one exchange fill-set.
pub struct Trade {
    pub position_id: Option<String>,
    pub symbol: String,
    pub side: TradingAction,
    pub quantity: u64,
    pub price: u64,
    pub usdc_amount: u64,
    pub commission: u64,
}

// ─── Cycle records ───────────────────────────────────────

/// The audit record of one orchestration pass, as the engine determines it;
/// the store assigns the row identity and creation time.
pub struct CycleLog {
    pub balance_usdc: u64,
    pub action: LogAction,
    pub symbol: Option<String>,
    pub confidence: Option<i32>,
    pub reasoning: Option<String>,
    pub raw_response: Option<String>,
    pub fear_greed: Option<i32>,
    pub execution_ms: u64,
    pub result: Option<CycleResult>,
    pub error: Option<String>,
}

/// A point-in-time balance snapshot, written once per completed cycle.
pub struct BalanceHistory {
    pub balance_usdc: u64,
    pub open_positions: u64,
    pub total_pnl: i128,
}

/// The event published to subscribers after a cycle.
pub struct CycleUpdate {
    pub cycle_number: u64,
    pub balance_usdc: u64,
    pub action: TradingAction,
    pub symbol: Option<String>,
    pub confidence: Option<i32>,
    pub reasoning: Option<String>,
    pub pnl: i128,
    pub fear_greed: Option<i32>,
}

// ─── Oracle decision ─────────────────────────────────────

/// The structured decision parsed from the oracle's reply.
pub struct TradingDecision {
    pub action: TradingAction,
    pub symbol: Option<String>,
    pub confidence: i32,
    pub reasoning: String,
    pub stop_loss: Option<u64>,
    pub take_profit: Option<u64>,
}

impl TradingDecision {
    /// Confidence on the oracle's scale, a symbol on every trade action,
    /// and prices in range.
    pub open spec fn wf(&self) -> bool {
        &&& 0 <= self.confidence <= 100
        &&& self.action !is Hold ==> self.symbol is Some
        &&& self.stop_loss matches Some(p) ==> amount_ok(p)
        &&& self.take_profit matches Some(p) ==> amount_ok(p)
    }
}

// ─── Exchange wire shapes ────────────────────────────────

/// The exchange's account payload: per-asset balances as decimal texts.
pub struct AccountInfo {
    pub balances: Vec<AssetBalance>,
}

pub struct AssetBalance {
    pub asset: String,
    pub free: String,
    pub locked: String,
}

/// A 24-hour ticker as the exchange reports it: decimal texts.
pub struct Ticker24h {
    pub symbol: String,
    pub price_change: String,
    pub price_change_percent: String,
    pub last_price: String,
    pub high_price: String,
    pub low_price: String,
    pub volume: String,
    pub quote_volume: String,
}

impl Clone for Ticker24h {
    /// An exact copy.
    fn clone(&self) -> (r: Self)
        ensures
            r == *self,
    {
        Ticker24h {
            symbol: self.symbol.clone(),
            price_change: self.price_change.clone(),
            price_change_percent: self.price_change_percent.clone(),
            last_price: self.last_price.clone(),
            high_price: self.high_price.clone(),
            low_price: self.low_price.clone(),
            volume: self.volume.clone(),
            quote_volume: self.quote_volume.clone(),
        }
    }
}

/// An order execution report: quantities as decimal texts, with the fills
/// that made it up.
pub struct OrderResponse {
    pub symbol: String,
    pub order_id: u64,
    pub status: String,
    pub side: String,
    pub order_type: String,
    pub executed_qty: String,
    pub cummulative_quote_qty: String,
    pub fills: Vec<OrderFill>,
}

pub struct OrderFill {
    pub price: String,
    pub qty: String,
    pub commission: String,
    pub commission_asset: String,
}

/// An execution summary in ticks, computed from an order report.
pub struct ExecutedTrade {
    pub symbol: String,
    pub side: String,
    pub quantity: u64,
    pub avg_price: u64,
    pub usdc_amount: u64,
    pub commission: u64,
}

/// The tick count a wire decimal denotes, zero when it does not parse.
pub open spec fn amount_or_zero(s: Seq<char>) -> u64 {
    match spec_parse_amount(encode_utf8(s)) {
        Some(v) => v,
        None => 0,
    }
}

/// Total commission over a fill list, unparseable entries counting zero.
pub open spec fn spec_commission_sum(fills: Seq<OrderFill>) -> nat
    decreases fills.len(),
{
    if fills.len() == 0 {
        0
    } else {
        spec_commission_sum(fills.drop_last()) + amount_or_zero(fills.last().commission@) as nat
    }
}

/// The average fill price in ticks: quote amount over quantity, zero for a
/// zero quantity, saturated to the representable range.
pub open spec fn spec_avg_price(quote: u64, qty: u64) -> u64 {
    if qty == 0 {
        0
    } else {
        let p = (quote as nat) * (UNIT as nat) / (qty as nat);
        if p > u64::MAX {
            u64::MAX as u64
        } else {
            p as u64
        }
    }
}

/// Saturating form of the commission total.
pub open spec fn spec_commission_total(fills: Seq<OrderFill>) -> u64 {
    if spec_commission_sum(fills) > u64::MAX {
        u64::MAX as u64
    } else {
        spec_commission_sum(fills) as u64
    }
}

fn parse_amount_str(s: &String) -> (r: u64)
    ensures
        r == amount_or_zero(s@),
{
    let bytes = s.as_str().as_bytes();
    match parse_amount(bytes) {
        Some(v) => v,
        None => 0,
    }
}

impl OrderResponse {
    /// Summarize the report: parse the executed quantity and quote amount
    /// (zero when unparseable, as the exchange never sends such a report for
    /// a filled order), average them into a price, and total the fills'
    /// commissions.
    pub fn to_executed_trade(&self) -> (r: ExecutedTrade)
        ensures
            r.quantity == amount_or_zero(self.executed_qty@),
            r.usdc_amount == amount_or_zero(self.cummulative_quote_qty@),
            r.avg_price == spec_avg_price(r.usdc_amount, r.quantity),
            r.commission == spec_commission_total(self.fills@),
            r.symbol@ == self.symbol@,
            r.side@ == self.side@,
    {
        let quantity = parse_amount_str(&self.executed_qty);
        let usdc_amount = parse_amount_str(&self.cummulative_quote_qty);
        let avg_price: u64 = if quantity > 0 {
            let wide: u128 = (usdc_amount as u128) * (UNIT as u128) / (quantity as u128);
            proof {
                assert((usdc_amount as u128) * (UNIT as u128) <= (u64::MAX as u128) * (
                u64::MAX as u128)) by (nonlinear_arith)
                    requires
                        usdc_amount <= u64::MAX,
                        UNIT <= u64::MAX,
                ;
            }
            if wide > u64::MAX as u128 {
                u64::MAX
            } else {
                wide as u64
            }
        } else {
            0
        };
        let mut commission: u128 = 0;
        let mut i: usize = 0;
        while i < self.fills.len()
            invariant
                0 <= i <= self.fills@.len(),
                commission == spec_commission_sum(self.fills@.subrange(0, i as int)),
                commission <= (i as nat) * (u64::MAX as nat),
            decreases self.fills@.len() - i,
        {
            let c = parse_amount_str(&self.fills[i].commission);
            proof {
                let p = self.fills@.subrange(0, i as int);
                let q = self.fills@.subrange(0, i + 1 as int);
                assert(q.drop_last() =~= p);
                assert(q.last() == self.fills@[i as int]);
                assert((i as nat) * (u64::MAX as nat) + (u64::MAX as nat) == ((i + 1) as nat) * (
                u64::MAX as nat)) by (nonlinear_arith);
                assert(((i + 1) as nat) * (u64::MAX as nat) < u128::MAX) by (nonlinear_arith)
                    requires
                        i + 1 <= usize::MAX,
                ;
            }
            commission = commission + (c as u128);
            i = i + 1;
        }
        assert(self.fills@.subrange(0, self.fills@.len() as int) =~= self.fills@);
        let commission64: u64 = if commission > u64::MAX as u128 {
            u64::MAX
        } else {
            commission as u64
        };
        ExecutedTrade {
            symbol: clone_string(&self.symbol),
            side: clone_string(&self.side),
            quantity,
            avg_price,
            usdc_amount,
            commission: commission64,
        }
    }
}

/// An exact copy of a string.
pub fn clone_string(s: &String) -> (r: String)
    ensures
        r@ == s@,
{
    s.clone()
}

} // verus!
