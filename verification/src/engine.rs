//! The cycle orchestration engine, as an explicit state machine.
//!
//! One cycle is a sequence of decisions between I/O waits: check the
//! lifecycle, fetch the balance, evaluate risk on open positions, gather
//! context, ask the oracle, execute the decision, and record the audit
//! trail. The machine consumes one event (the result of the previous I/O
//! request) per step and answers with the effects to perform; the last
//! effect of a non-terminal step is the next request. A host runs the
//! loop; every decision in between is verified here.

use vstd::prelude::*;
use crate::models::{
    Position, Trade, CycleLog, BalanceHistory, CycleUpdate, TradingAction, TradingDecision,
    CloseReason, CycleResult, ExecutedTrade, Ticker24h, LogAction,
};
use crate::money::{UNIT, AMOUNT_MAX, amount_ok};
use crate::risk::{RiskManager, spec_check, spec_price_updates, spec_enforced_stop, min_stop, MAX_OPEN_POSITIONS};
use crate::strategy::{PositionSizer, position_size};
use crate::parser::parse_decision;
use crate::prompt::{build_prompt, spec_prompt};
use crate::markets::{filter_usdc_tickers, spec_usdc_tickers, spec_sort_desc};
use crate::stats::{
    consecutive_losses, spec_loss_streak, sentiment_index, spec_sentiment, NEUTRAL_SENTIMENT,
};
use vstd::utf8::encode_utf8;

verus! {

// ─── Configuration ───────────────────────────────────────

/// What the engine needs to know about its surroundings.
pub struct CycleConfig {
    /// Reserve floor in ticks: under it the bot holds.
    pub min_balance_usdc: u64,
    /// The oracle's user id, mentioned in the prompt.
    pub openclaw_user_id: String,
}

// ─── Effects ─────────────────────────────────────────────

/// A new position to open, as a BUY execution determines it.
pub struct NewPosition {
    pub symbol: String,
    pub side: TradingAction,
    pub quantity: u64,
    pub entry_price: u64,
    pub stop_loss: Option<u64>,
    pub take_profit: Option<u64>,
}

/// One effect the host performs for the machine. The last command of a
/// non-terminal step is a request whose outcome comes back as the next
/// event.
pub enum Command {
    /// Read the lifecycle record.
    ReadLifecycle,
    /// Fetch the quote balance from the exchange.
    FetchBalance,
    /// Mark the bot dead.
    KillBot { reason: String },
    /// Append a cycle record.
    LogCycle { entry: CycleLog },
    /// Read the open positions.
    ReadOpenPositions,
    /// Fetch the current price of each listed symbol.
    FetchPrices { symbols: Vec<String> },
    /// Persist a refreshed position price.
    UpdatePositionPrice { position_id: String, price: u64 },
    /// Submit a market sell for a full position quantity.
    MarketSell { symbol: String, quantity: u64 },
    /// Submit a market buy for a quote amount.
    MarketBuy { symbol: String, quote_amount: u64 },
    /// Close a position with its realized profit and loss.
    ClosePosition { position_id: String, pnl: i128, cause: CloseReason },
    /// Record an execution; a `None` position id means the position the
    /// host just opened from the same step.
    RecordTrade { trade: Trade },
    /// Open a position and record its opening trade against it.
    OpenPosition { position: NewPosition, trade: Trade },
    /// Read open positions, tickers, the sentiment value and the recent
    /// cycle results.
    GatherContext,
    /// Send the prompt to the oracle and await its reply.
    AskOracle { prompt: String },
    /// Read the refreshed balance, open-position count, total realized
    /// profit and loss, and the cycle count.
    FetchSnapshotData,
    /// Append a balance snapshot.
    RecordSnapshot { snapshot: BalanceHistory },
    /// Publish a cycle update to all subscribers, fire and forget.
    Broadcast { update: CycleUpdate },
}

// ─── Events ──────────────────────────────────────────────

/// The outcome of the last request, handed back by the host.
pub enum CycleEvent {
    LifecycleRead { is_dead: bool },
    BalanceFetched { result: Result<u64, String> },
    PositionsRead { positions: Vec<Position> },
    /// One entry per requested symbol; `None` where the fetch failed.
    PricesFetched { prices: Vec<Option<u64>> },
    /// One entry per requested sell; `None` where the order failed.
    SellsExecuted { fills: Vec<Option<ExecutedTrade>> },
    ContextRead {
        open_positions: Vec<Position>,
        tickers: Vec<Ticker24h>,
        sentiment_text: Option<String>,
        recent_results: Vec<Option<String>>,
    },
    /// `Ok(None)` is a reply timeout.
    OracleReplied { reply: Result<Option<String>, String>, elapsed_ms: u64 },
    BuyExecuted { fill: Result<ExecutedTrade, String>, elapsed_ms: u64 },
    SellExecuted { fill: Result<ExecutedTrade, String>, elapsed_ms: u64 },
    StatsRead { balance: Option<u64>, open_count: u64, total_pnl: i128, cycle_count: u64 },
}

// ─── Phases ──────────────────────────────────────────────

/// Where in the cycle the machine stands, with what it has learned.
pub enum Phase {
    /// Awaiting the lifecycle read.
    Start,
    /// Awaiting the balance.
    BalanceCheck,
    /// Awaiting the open positions for the risk pass.
    RiskPositions { balance: u64 },
    /// Awaiting the fetched prices.
    RiskPrices { balance: u64, positions: Vec<Position> },
    /// Awaiting the risk sells' fills.
    RiskSells { balance: u64, to_close: Vec<(Position, CloseReason)> },
    /// Awaiting the context read.
    Context { balance: u64 },
    /// Awaiting the oracle's reply.
    Oracle { balance: u64, fear_greed: i32, open_positions: Vec<Position> },
    /// Awaiting the buy fill.
    ExecuteBuy { balance: u64, fear_greed: i32, decision: TradingDecision, raw: String },
    /// Awaiting the sell fill.
    ExecuteSell {
        balance: u64,
        fear_greed: i32,
        decision: TradingDecision,
        raw: String,
        position: Position,
    },
    /// Awaiting snapshot data after a completed decision.
    MainStats { balance: u64, fear_greed: i32, decision: TradingDecision },
    /// Awaiting snapshot data after an early HOLD exit.
    HoldStats { balance: u64 },
    /// The cycle is over.
    Done,
}

/// The cycle engine: a fresh machine runs one cycle.
pub struct CycleMachine {
    pub config: CycleConfig,
    pub phase: Phase,
}

// ─── Pure pieces of the transition relation ──────────────

/// A fill whose amounts the model can carry.
pub open spec fn fill_ok(f: ExecutedTrade) -> bool {
    &&& amount_ok(f.quantity)
    &&& amount_ok(f.avg_price)
    &&& amount_ok(f.usdc_amount)
    &&& amount_ok(f.commission)
}

/// Realized profit and loss in ticks: price difference times quantity,
/// scaled back from the ticks-squared product.
pub open spec fn spec_pnl(entry: u64, fill: u64, qty: u64) -> int {
    if fill >= entry {
        (fill - entry) * qty / (UNIT as int)
    } else {
        -((entry - fill) * qty / (UNIT as int))
    }
}

/// Realized profit and loss of a fill against an entry price.
pub fn pnl_ticks(entry: u64, fill: u64, qty: u64) -> (r: i128)
    requires
        amount_ok(entry),
        amount_ok(fill),
        amount_ok(qty),
    ensures
        r == spec_pnl(entry, fill, qty),
{
    let (neg, diff): (bool, u64) = if fill >= entry {
        (false, fill - entry)
    } else {
        (true, entry - fill)
    };
    proof {
        assert((diff as int) * (qty as int) <= (1_000_000_000_000_000_000int) * (
        1_000_000_000_000_000_000int)) by (nonlinear_arith)
            requires
                diff <= 1_000_000_000_000_000_000u64,
                qty <= 1_000_000_000_000_000_000u64,
        ;
        assert((diff as int) * (qty as int) / (UNIT as int) <= (diff as int) * (qty as int))
            by (nonlinear_arith)
            requires
                UNIT == 100_000_000u64,
                (diff as int) * (qty as int) >= 0,
        ;
    }
    let mag: u128 = (diff as u128) * (qty as u128) / (UNIT as u128);
    if neg {
        proof {
            assert(mag <= i128::MAX) by (nonlinear_arith)
                requires
                    mag <= (1_000_000_000_000_000_000u128) * (1_000_000_000_000_000_000u128),
            ;
        }
        -(mag as i128)
    } else {
        proof {
            assert(mag <= i128::MAX) by (nonlinear_arith)
                requires
                    mag <= (1_000_000_000_000_000_000u128) * (1_000_000_000_000_000_000u128),
            ;
        }
        mag as i128
    }
}

/// The error record of a failed cycle.
pub open spec fn is_error_log(e: CycleLog, balance: u64, error: Seq<char>) -> bool {
    &&& e.balance_usdc == balance
    &&& e.action is Error
    &&& e.symbol is None
    &&& e.confidence is None
    &&& e.reasoning is None
    &&& e.raw_response is None
    &&& e.fear_greed is None
    &&& e.execution_ms == 0
    &&& e.result is None
    &&& e.error matches Some(msg) && msg@ == error
}

/// The record of an early HOLD exit.
pub open spec fn is_hold_log(e: CycleLog, balance: u64, reason: Seq<char>) -> bool {
    &&& e.balance_usdc == balance
    &&& e.action is Hold
    &&& e.symbol is None
    &&& e.confidence is None
    &&& e.reasoning matches Some(msg) && msg@ == reason
    &&& e.raw_response is None
    &&& e.fear_greed is None
    &&& e.execution_ms == 0
    &&& e.result matches Some(res) && res is Hold
    &&& e.error is None
}

/// The record of a cycle that reached a decision.
pub open spec fn is_main_log(
    e: CycleLog,
    balance: u64,
    d: TradingDecision,
    raw: Seq<char>,
    fear_greed: i32,
    elapsed_ms: u64,
    result: Option<CycleResult>,
    error: Option<Seq<char>>,
) -> bool {
    &&& e.balance_usdc == balance
    &&& (match d.action {
        TradingAction::Buy => e.action is Buy,
        TradingAction::Sell => e.action is Sell,
        TradingAction::Hold => e.action is Hold,
    })
    &&& (match (e.symbol, d.symbol) {
        (Some(a), Some(b)) => a@ == b@,
        (None, None) => true,
        _ => false,
    })
    &&& e.confidence == Some(d.confidence)
    &&& e.reasoning matches Some(rs) && rs@ == d.reasoning@
    &&& e.raw_response matches Some(rr) && rr@ == raw
    &&& e.fear_greed == Some(fear_greed)
    &&& e.execution_ms == elapsed_ms
    &&& e.result == result
    &&& (match (e.error, error) {
        (Some(a), Some(b)) => a@ == b,
        (None, None) => true,
        _ => false,
    })
}

/// The price refreshes of a risk pass, as commands.
pub open spec fn update_cmds(updates: Seq<(String, u64)>) -> Seq<Command> {
    Seq::new(
        updates.len(),
        |i: int|
            Command::UpdatePositionPrice { position_id: updates[i].0, price: updates[i].1 },
    )
}

/// The sell orders of a risk pass, as commands.
pub open spec fn sell_cmds(to_close: Seq<(Position, CloseReason)>) -> Seq<Command> {
    Seq::new(
        to_close.len(),
        |i: int|
            Command::MarketSell { symbol: to_close[i].0.symbol, quantity: to_close[i].0.quantity },
    )
}

/// The closing bookkeeping of a risk pass: each filled sell closes its
/// position with its realized profit and loss and records the trade; a
/// failed or unrepresentable fill skips its position.
pub open spec fn close_cmds(
    to_close: Seq<(Position, CloseReason)>,
    fills: Seq<Option<ExecutedTrade>>,
) -> Seq<Command>
    decreases to_close.len(),
{
    if to_close.len() == 0 {
        Seq::empty()
    } else {
        let rest = close_cmds(to_close.drop_last(), fills.drop_last());
        let (pos, reason) = to_close.last();
        match fills.last() {
            Some(fill) => if fill_ok(fill) && pos_amounts_ok(pos) {
                rest + seq![
                    Command::ClosePosition {
                        position_id: pos.id,
                        pnl: spec_pnl(pos.entry_price, fill.avg_price, pos.quantity) as i128,
                        cause: reason,
                    },
                    Command::RecordTrade {
                        trade: Trade {
                            position_id: Some(pos.id),
                            symbol: pos.symbol,
                            side: TradingAction::Sell,
                            quantity: fill.quantity,
                            price: fill.avg_price,
                            usdc_amount: fill.usdc_amount,
                            commission: fill.commission,
                        },
                    },
                ]
            } else {
                rest
            },
            None => rest,
        }
    }
}

/// The first open position for a symbol.
pub open spec fn spec_position_for(ps: Seq<Position>, symbol: Seq<char>) -> Option<Position>
    decreases ps.len(),
{
    if ps.len() == 0 {
        None
    } else if ps[0].symbol@ == symbol {
        Some(ps[0])
    } else {
        spec_position_for(ps.drop_first(), symbol)
    }
}


/// A position whose amounts the model can compute with.
pub open spec fn pos_amounts_ok(p: Position) -> bool {
    amount_ok(p.quantity) && amount_ok(p.entry_price)
}

// ─── The transition relation ─────────────────────────────

/// Nothing happened: a mismatched event leaves the machine as it stands.
pub open spec fn stalled(pre: CycleMachine, post: CycleMachine, cmds: Seq<Command>) -> bool {
    post == pre && cmds =~= Seq::<Command>::empty()
}

/// A dead lifecycle ends the cycle with no effect at all; a live one asks
/// for the balance.
pub open spec fn start_step(is_dead: bool, post: Phase, cmds: Seq<Command>) -> bool {
    if is_dead {
        post is Done && cmds =~= Seq::<Command>::empty()
    } else {
        post is BalanceCheck && cmds =~= seq![Command::FetchBalance]
    }
}

/// The balance decides the cycle's fate: a fetch failure logs an error
/// cycle; zero kills the bot; under the reserve the cycle holds; otherwise
/// the risk pass begins.
pub open spec fn balance_step(
    min_balance: u64,
    result: Result<u64, String>,
    post: Phase,
    cmds: Seq<Command>,
) -> bool {
    match result {
        Err(e) => {
            &&& post is Done
            &&& cmds.len() == 1
            &&& cmds[0] matches Command::LogCycle { entry } && is_error_log(entry, 0, e@)
        },
        Ok(b) => {
            if b == 0 {
                &&& post is Done
                &&& cmds.len() == 2
                &&& cmds[0] matches Command::KillBot { reason } && reason@
                    == "Balance reached zero"@
                &&& cmds[1] matches Command::LogCycle { entry } && is_error_log(
                    entry,
                    0,
                    "Balance reached zero — bot terminated"@,
                )
            } else if b < min_balance {
                &&& post matches Phase::HoldStats { balance } && balance == b
                &&& cmds.len() == 2
                &&& cmds[0] matches Command::LogCycle { entry } && is_hold_log(
                    entry,
                    b,
                    "Below minimum reserve"@,
                )
                &&& cmds[1] is FetchSnapshotData
            } else {
                &&& post matches Phase::RiskPositions { balance } && balance == b
                &&& cmds =~= seq![Command::ReadOpenPositions]
            }
        },
    }
}

/// The open positions are read; their prices are fetched next.
pub open spec fn positions_step(
    balance: u64,
    positions: Seq<Position>,
    post: Phase,
    cmds: Seq<Command>,
) -> bool {
    &&& post matches Phase::RiskPrices { balance: b2, positions: ps2 } && b2 == balance && ps2@
        =~= positions
    &&& cmds.len() == 1
    &&& cmds[0] matches Command::FetchPrices { symbols } && symbols@.len() == positions.len()
        && (forall|i: int|
        0 <= i < positions.len() ==> #[trigger] symbols@[i]@ == positions[i].symbol@)
}

/// The fetched prices run the risk pass: persist each usable price, then
/// sell every triggered position — or go straight to context gathering
/// when nothing triggered.
pub open spec fn prices_step(
    balance: u64,
    positions: Seq<Position>,
    prices: Seq<Option<u64>>,
    post: Phase,
    cmds: Seq<Command>,
) -> bool {
    let to_close = spec_check(positions, prices);
    let updates = spec_price_updates(positions, prices);
    if to_close.len() == 0 {
        &&& post matches Phase::Context { balance: b2 } && b2 == balance
        &&& cmds =~= update_cmds(updates).push(Command::GatherContext)
    } else {
        &&& post matches Phase::RiskSells { balance: b2, to_close: tc } && b2 == balance && tc@
            =~= to_close
        &&& cmds =~= update_cmds(updates) + sell_cmds(to_close)
    }
}

/// The risk sells' fills close their positions; failures are skipped and
/// the cycle goes on to context gathering.
pub open spec fn sells_step(
    balance: u64,
    to_close: Seq<(Position, CloseReason)>,
    fills: Seq<Option<ExecutedTrade>>,
    post: Phase,
    cmds: Seq<Command>,
) -> bool {
    &&& post matches Phase::Context { balance: b2 } && b2 == balance
    &&& cmds =~= close_cmds(to_close, fills).push(Command::GatherContext)
}

/// The context is read: compute the sentiment (neutral on a failed fetch),
/// the loss streak, and the prompt over the quote-currency markets sorted
/// by volume; then ask the oracle.
pub open spec fn context_step(
    cfg: CycleConfig,
    balance: u64,
    open_positions: Seq<Position>,
    tickers: Seq<Ticker24h>,
    sentiment_text: Option<String>,
    recent_results: Seq<Option<String>>,
    post: Phase,
    cmds: Seq<Command>,
) -> bool {
    let fear = match sentiment_text {
        Some(t) => spec_sentiment(encode_utf8(t@)),
        None => NEUTRAL_SENTIMENT,
    };
    let losses = spec_loss_streak(recent_results);
    &&& post matches Phase::Oracle { balance: b2, fear_greed, open_positions: ops } && b2
        == balance && fear_greed == fear && ops@ =~= open_positions
    &&& cmds.len() == 1
    &&& cmds[0] matches Command::AskOracle { prompt } && prompt@ == spec_prompt(
        balance as nat,
        open_positions,
        spec_sort_desc(spec_usdc_tickers(tickers)),
        fear as nat,
        losses as nat,
        cfg.openclaw_user_id@,
    )
}

/// What execution the parsed decision calls for.
pub open spec fn decision_step(
    min_balance: u64,
    balance: u64,
    fear: i32,
    open_positions: Seq<Position>,
    d: TradingDecision,
    raw: Seq<char>,
    elapsed_ms: u64,
    post: Phase,
    cmds: Seq<Command>,
) -> bool {
    match d.action {
        TradingAction::Hold => {
            &&& post matches Phase::MainStats { balance: b2, fear_greed, decision } && b2
                == balance && fear_greed == fear && decision == d
            &&& cmds.len() == 2
            &&& cmds[0] matches Command::LogCycle { entry } && is_main_log(
                entry,
                balance,
                d,
                raw,
                fear,
                elapsed_ms,
                Some(CycleResult::Hold),
                None,
            )
            &&& cmds[1] is FetchSnapshotData
        },
        TradingAction::Buy => {
            if open_positions.len() >= MAX_OPEN_POSITIONS as int {
                &&& post matches Phase::MainStats { balance: b2, fear_greed, decision } && b2
                    == balance && fear_greed == fear && decision == d
                &&& cmds.len() == 2
                &&& cmds[0] matches Command::LogCycle { entry } && is_main_log(
                    entry,
                    balance,
                    d,
                    raw,
                    fear,
                    elapsed_ms,
                    Some(CycleResult::SkippedMaxPositions),
                    None,
                )
                &&& cmds[1] is FetchSnapshotData
            } else if position_size(balance as int, d.confidence as int, min_balance as int)
                == 0 {
                &&& post matches Phase::MainStats { balance: b2, fear_greed, decision } && b2
                    == balance && fear_greed == fear && decision == d
                &&& cmds.len() == 2
                &&& cmds[0] matches Command::LogCycle { entry } && is_main_log(
                    entry,
                    balance,
                    d,
                    raw,
                    fear,
                    elapsed_ms,
                    Some(CycleResult::SkippedInsufficientSize),
                    None,
                )
                &&& cmds[1] is FetchSnapshotData
            } else {
                &&& post matches Phase::ExecuteBuy { balance: b2, fear_greed, decision, raw: r2 }
                    && b2 == balance && fear_greed == fear && decision == d && r2@ == raw
                &&& cmds.len() == 1
                &&& cmds[0] matches Command::MarketBuy { symbol, quote_amount } && (
                d.symbol matches Some(sym) && symbol@ == sym@) && quote_amount == position_size(
                    balance as int,
                    d.confidence as int,
                    min_balance as int,
                )
            }
        },
        TradingAction::Sell => {
            let sym = match d.symbol {
                Some(sym) => sym@,
                None => Seq::empty(),
            };
            match spec_position_for(open_positions, sym) {
                None => {
                    &&& post matches Phase::MainStats { balance: b2, fear_greed, decision } && b2
                        == balance && fear_greed == fear && decision == d
                    &&& cmds.len() == 2
                    &&& cmds[0] matches Command::LogCycle { entry } && is_main_log(
                        entry,
                        balance,
                        d,
                        raw,
                        fear,
                        elapsed_ms,
                        Some(CycleResult::SkippedNoOpenPosition),
                        None,
                    )
                    &&& cmds[1] is FetchSnapshotData
                },
                Some(pos) => {
                    &&& post matches Phase::ExecuteSell {
                        balance: b2,
                        fear_greed,
                        decision,
                        raw: r2,
                        position,
                    } && b2 == balance && fear_greed == fear && decision == d && r2@ == raw
                        && position == pos
                    &&& cmds.len() == 1
                    &&& cmds[0] matches Command::MarketSell { symbol, quantity } && symbol@
                        == pos.symbol@ && quantity == pos.quantity
                },
            }
        },
    }
}

/// The oracle replied, or failed to: an error logs an error cycle; a
/// timeout logs a HOLD; a reply is parsed and executed. The parsed
/// decision is pinned by the reply's bytes: the HOLD default when the
/// extracted document is not JSON, else exactly the decision the
/// document's members spell (`decision_of_members`).
pub open spec fn oracle_step(
    min_balance: u64,
    balance: u64,
    fear: i32,
    open_positions: Seq<Position>,
    reply: Result<Option<String>, String>,
    elapsed_ms: u64,
    post: Phase,
    cmds: Seq<Command>,
) -> bool {
    match reply {
        Err(e) => {
            &&& post is Done
            &&& cmds.len() == 1
            &&& cmds[0] matches Command::LogCycle { entry } && is_error_log(entry, balance, e@)
        },
        Ok(None) => {
            &&& post matches Phase::HoldStats { balance: b2 } && b2 == balance
            &&& cmds.len() == 2
            &&& cmds[0] matches Command::LogCycle { entry } && is_hold_log(
                entry,
                balance,
                "OpenClaw timeout"@,
            )
            &&& cmds[1] is FetchSnapshotData
        },
        Ok(Some(raw)) => exists|d: TradingDecision|
            {
                &&& #[trigger] d.wf()
                &&& (!crate::parser::json_parses(
                    crate::parser::spec_doc(encode_utf8(raw@)),
                ) ==> crate::parser::is_default_hold(d))
                &&& (crate::parser::json_parses(
                    crate::parser::spec_doc(encode_utf8(raw@)),
                ) ==> crate::parser::decision_of_members(
                    d,
                    crate::parser::json_members_of(crate::parser::spec_doc(encode_utf8(raw@))),
                ))
                &&& decision_step(
                    min_balance,
                    balance,
                    fear,
                    open_positions,
                    d,
                    raw@,
                    elapsed_ms,
                    post,
                    cmds,
                )
            },
    }
}

/// The buy fill settles: a failed or unrepresentable fill is captured as
/// the cycle's error; a good fill opens the position under the enforced
/// stop-loss (five percent below the fill price when the oracle gave none)
/// and records the trade.
pub open spec fn buy_step(
    balance: u64,
    fear: i32,
    d: TradingDecision,
    raw: Seq<char>,
    fill: Result<ExecutedTrade, String>,
    elapsed_ms: u64,
    post: Phase,
    cmds: Seq<Command>,
) -> bool {
    &&& post matches Phase::MainStats { balance: b2, fear_greed, decision } && b2 == balance
        && fear_greed == fear && decision == d
    &&& match fill {
        Err(e) => {
            &&& cmds.len() == 2
            &&& cmds[0] matches Command::LogCycle { entry } && is_main_log(
                entry,
                balance,
                d,
                raw,
                fear,
                elapsed_ms,
                None,
                Some(e@),
            )
            &&& cmds[1] is FetchSnapshotData
        },
        Ok(f) => {
            if !fill_ok(f) {
                &&& cmds.len() == 2
                &&& cmds[0] matches Command::LogCycle { entry } && is_main_log(
                    entry,
                    balance,
                    d,
                    raw,
                    fear,
                    elapsed_ms,
                    None,
                    Some("fill out of representable range"@),
                )
                &&& cmds[1] is FetchSnapshotData
            } else {
                let enforced = match d.stop_loss {
                    Some(sl) => spec_enforced_stop(f.avg_price as int, sl as int),
                    None => min_stop(f.avg_price as int),
                };
                let sym = match d.symbol {
                    Some(sym) => sym@,
                    None => Seq::empty(),
                };
                &&& cmds.len() == 3
                &&& cmds[0] matches Command::OpenPosition { position, trade } && position.symbol@
                    == sym && trade.symbol@ == sym
                    && position.side is Buy && position.quantity == f.quantity
                    && position.entry_price == f.avg_price && (position.stop_loss matches Some(v)
                    && v == enforced) && position.take_profit == d.take_profit
                    && trade.position_id is None && trade.side is Buy && trade.quantity
                    == f.quantity && trade.price == f.avg_price && trade.usdc_amount
                    == f.usdc_amount && trade.commission == f.commission
                &&& cmds[1] matches Command::LogCycle { entry } && is_main_log(
                    entry,
                    balance,
                    d,
                    raw,
                    fear,
                    elapsed_ms,
                    Some(CycleResult::BuyExecuted),
                    None,
                )
                &&& cmds[2] is FetchSnapshotData
            }
        },
    }
}

/// The sell fill settles: close the position with its realized profit and
/// loss, record the trade, and classify the cycle WIN on a profit or
/// break-even and LOSS otherwise.
pub open spec fn sell_step(
    balance: u64,
    fear: i32,
    d: TradingDecision,
    raw: Seq<char>,
    position: Position,
    fill: Result<ExecutedTrade, String>,
    elapsed_ms: u64,
    post: Phase,
    cmds: Seq<Command>,
) -> bool {
    &&& post matches Phase::MainStats { balance: b2, fear_greed, decision } && b2 == balance
        && fear_greed == fear && decision == d
    &&& match fill {
        Err(e) => {
            &&& cmds.len() == 2
            &&& cmds[0] matches Command::LogCycle { entry } && is_main_log(
                entry,
                balance,
                d,
                raw,
                fear,
                elapsed_ms,
                None,
                Some(e@),
            )
            &&& cmds[1] is FetchSnapshotData
        },
        Ok(f) => {
            if !fill_ok(f) || !pos_amounts_ok(position) {
                &&& cmds.len() == 2
                &&& cmds[0] matches Command::LogCycle { entry } && is_main_log(
                    entry,
                    balance,
                    d,
                    raw,
                    fear,
                    elapsed_ms,
                    None,
                    Some("fill out of representable range"@),
                )
                &&& cmds[1] is FetchSnapshotData
            } else {
                let pnl = spec_pnl(position.entry_price, f.avg_price, position.quantity);
                let result = if pnl >= 0 {
                    CycleResult::Win
                } else {
                    CycleResult::Loss
                };
                &&& cmds.len() == 4
                &&& cmds[0] matches Command::ClosePosition { position_id, pnl: p2, cause }
                    && position_id@ == position.id@ && p2 == pnl && cause is SellDecision
                &&& cmds[1] matches Command::RecordTrade { trade } && (
                trade.position_id matches Some(pid) && pid@ == position.id@) && trade.symbol@
                    == position.symbol@ && trade.side is Sell && trade.quantity == f.quantity
                    && trade.price == f.avg_price && trade.usdc_amount == f.usdc_amount
                    && trade.commission == f.commission
                &&& cmds[2] matches Command::LogCycle { entry } && is_main_log(
                    entry,
                    balance,
                    d,
                    raw,
                    fear,
                    elapsed_ms,
                    Some(result),
                    None,
                )
                &&& cmds[3] is FetchSnapshotData
            }
        },
    }
}

/// Snapshot and broadcast after a completed decision: the refreshed
/// balance (falling back to the cycle's balance), the open-position count
/// and total profit and loss are recorded, and the update is published.
pub open spec fn main_stats_step(
    balance: u64,
    fear: i32,
    d: TradingDecision,
    updated: Option<u64>,
    open_count: u64,
    total_pnl: i128,
    cycle_count: u64,
    post: Phase,
    cmds: Seq<Command>,
) -> bool {
    let b = match updated {
        Some(v) => v,
        None => balance,
    };
    &&& post is Done
    &&& cmds.len() == 2
    &&& cmds[0] matches Command::RecordSnapshot { snapshot } && snapshot.balance_usdc == b
        && snapshot.open_positions == open_count && snapshot.total_pnl == total_pnl
    &&& cmds[1] matches Command::Broadcast { update } && update.cycle_number == cycle_count
        && update.balance_usdc == b && update.action == d.action && (match (
    update.symbol,
    d.symbol,
    ) {
        (Some(a), Some(bb)) => a@ == bb@,
        (None, None) => true,
        _ => false,
    }) && update.confidence == Some(d.confidence) && (update.reasoning matches Some(rs) && rs@
        == d.reasoning@) && update.pnl == total_pnl && update.fear_greed == Some(fear)
}

/// Snapshot after an early HOLD exit: the cycle's own balance with the
/// fetched count and total; nothing is broadcast.
pub open spec fn hold_stats_step(
    balance: u64,
    open_count: u64,
    total_pnl: i128,
    post: Phase,
    cmds: Seq<Command>,
) -> bool {
    &&& post is Done
    &&& cmds.len() == 1
    &&& cmds[0] matches Command::RecordSnapshot { snapshot } && snapshot.balance_usdc == balance
        && snapshot.open_positions == open_count && snapshot.total_pnl == total_pnl
}

/// The whole transition relation of the engine: what one `advance` step
/// may do for each phase and event. A mismatched event stalls the machine
/// without effect; a finished machine never acts again.
pub open spec fn step_ok(
    pre: CycleMachine,
    event: CycleEvent,
    post: CycleMachine,
    cmds: Seq<Command>,
) -> bool {
    &&& post.config == pre.config
    &&& match (pre.phase, event) {
        (Phase::Start, CycleEvent::LifecycleRead { is_dead }) => start_step(
            is_dead,
            post.phase,
            cmds,
        ),
        (Phase::BalanceCheck, CycleEvent::BalanceFetched { result }) => balance_step(
            pre.config.min_balance_usdc,
            result,
            post.phase,
            cmds,
        ),
        (Phase::RiskPositions { balance }, CycleEvent::PositionsRead { positions }) =>
            positions_step(balance, positions@, post.phase, cmds),
        (
            Phase::RiskPrices { balance, positions },
            CycleEvent::PricesFetched { prices },
        ) => if prices@.len() == positions@.len() {
            prices_step(balance, positions@, prices@, post.phase, cmds)
        } else {
            stalled(pre, post, cmds)
        },
        (Phase::RiskSells { balance, to_close }, CycleEvent::SellsExecuted { fills }) => if fills@
            .len() == to_close@.len() {
            sells_step(balance, to_close@, fills@, post.phase, cmds)
        } else {
            stalled(pre, post, cmds)
        },
        (
            Phase::Context { balance },
            CycleEvent::ContextRead { open_positions, tickers, sentiment_text, recent_results },
        ) => context_step(
            pre.config,
            balance,
            open_positions@,
            tickers@,
            sentiment_text,
            recent_results@,
            post.phase,
            cmds,
        ),
        (
            Phase::Oracle { balance, fear_greed, open_positions },
            CycleEvent::OracleReplied { reply, elapsed_ms },
        ) => oracle_step(
            pre.config.min_balance_usdc,
            balance,
            fear_greed,
            open_positions@,
            reply,
            elapsed_ms,
            post.phase,
            cmds,
        ),
        (
            Phase::ExecuteBuy { balance, fear_greed, decision, raw },
            CycleEvent::BuyExecuted { fill, elapsed_ms },
        ) => buy_step(balance, fear_greed, decision, raw@, fill, elapsed_ms, post.phase, cmds),
        (
            Phase::ExecuteSell { balance, fear_greed, decision, raw, position },
            CycleEvent::SellExecuted { fill, elapsed_ms },
        ) => sell_step(
            balance,
            fear_greed,
            decision,
            raw@,
            position,
            fill,
            elapsed_ms,
            post.phase,
            cmds,
        ),
        (
            Phase::MainStats { balance, fear_greed, decision },
            CycleEvent::StatsRead { balance: updated, open_count, total_pnl, cycle_count },
        ) => main_stats_step(
            balance,
            fear_greed,
            decision,
            updated,
            open_count,
            total_pnl,
            cycle_count,
            post.phase,
            cmds,
        ),
        (
            Phase::HoldStats { balance },
            CycleEvent::StatsRead { balance: _, open_count, total_pnl, cycle_count: _ },
        ) => hold_stats_step(balance, open_count, total_pnl, post.phase, cmds),
        (Phase::Done, _) => stalled(pre, post, cmds),
        _ => stalled(pre, post, cmds),
    }
}


// ─── Executable handlers ─────────────────────────────────

fn clone_opt_string(o: &Option<String>) -> (r: Option<String>)
    ensures
        match (r, *o) {
            (Some(a), Some(b)) => a@ == b@,
            (None, None) => true,
            _ => false,
        },
{
    match o {
        Some(s) => Some(s.clone()),
        None => None,
    }
}

fn error_log(balance: u64, error: String) -> (e: CycleLog)
    ensures
        is_error_log(e, balance, error@),
{
    CycleLog {
        balance_usdc: balance,
        action: LogAction::Error,
        symbol: None,
        confidence: None,
        reasoning: None,
        raw_response: None,
        fear_greed: None,
        execution_ms: 0,
        result: None,
        error: Some(error),
    }
}

fn hold_log(balance: u64, reason: &str) -> (e: CycleLog)
    ensures
        is_hold_log(e, balance, reason@),
{
    CycleLog {
        balance_usdc: balance,
        action: LogAction::Hold,
        symbol: None,
        confidence: None,
        reasoning: Some(reason.to_owned()),
        raw_response: None,
        fear_greed: None,
        execution_ms: 0,
        result: Some(CycleResult::Hold),
        error: None,
    }
}

fn main_log(
    balance: u64,
    d: &TradingDecision,
    raw: String,
    fear: i32,
    elapsed_ms: u64,
    result: Option<CycleResult>,
    error: Option<String>,
) -> (e: CycleLog)
    ensures
        is_main_log(
            e,
            balance,
            *d,
            raw@,
            fear,
            elapsed_ms,
            result,
            match error {
                Some(s) => Some(s@),
                None => None,
            },
        ),
{
    CycleLog {
        balance_usdc: balance,
        action: match d.action {
            TradingAction::Buy => LogAction::Buy,
            TradingAction::Sell => LogAction::Sell,
            TradingAction::Hold => LogAction::Hold,
        },
        symbol: clone_opt_string(&d.symbol),
        confidence: Some(d.confidence),
        reasoning: Some(d.reasoning.clone()),
        raw_response: Some(raw),
        fear_greed: Some(fear),
        execution_ms: elapsed_ms,
        result,
        error,
    }
}

/// The first position in the list for a symbol, as a SELL decision looks
/// it up.
pub fn position_for(ps: &Vec<Position>, symbol: &String) -> (r: Option<Position>)
    ensures
        match (r, spec_position_for(ps@, symbol@)) {
            (Some(a), Some(b)) => a == b,
            (None, None) => true,
            _ => false,
        },
{
    let n = ps.len();
    let mut i: usize = 0;
    while i < n && !crate::parser::str_is(&ps[i].symbol, symbol.as_str())
        invariant
            0 <= i <= n == ps@.len(),
            forall|j: int| 0 <= j < i ==> #[trigger] ps@[j].symbol@ != symbol@,
        decreases n - i,
    {
        i = i + 1;
    }
    proof {
        lemma_position_for_skip(ps@, symbol@, i as int);
        if i < n {
            assert(ps@.skip(i as int)[0] == ps@[i as int]);
        }
    }
    if i < n {
        Some(ps[i].clone())
    } else {
        None
    }
}

proof fn lemma_position_for_skip(ps: Seq<Position>, symbol: Seq<char>, i: int)
    requires
        0 <= i <= ps.len(),
        forall|j: int| 0 <= j < i ==> #[trigger] ps[j].symbol@ != symbol,
    ensures
        spec_position_for(ps, symbol) == spec_position_for(ps.skip(i), symbol),
    decreases i,
{
    if i == 0 {
        assert(ps.skip(0) =~= ps);
    } else {
        assert(forall|j: int| 0 <= j < i - 1 ==> #[trigger] ps.drop_first()[j] == ps[j + 1]);
        lemma_position_for_skip(ps.drop_first(), symbol, i - 1);
        assert(ps.drop_first().skip(i - 1) =~= ps.skip(i));
    }
}

fn handle_balance(min_balance: u64, result: Result<u64, String>) -> (r: (Phase, Vec<Command>))
    ensures
        balance_step(min_balance, result, r.0, r.1@),
{
    match result {
        Err(e) => {
            let mut cmds: Vec<Command> = Vec::new();
            cmds.push(Command::LogCycle { entry: error_log(0, e) });
            (Phase::Done, cmds)
        },
        Ok(b) => {
            if b == 0 {
                let mut cmds: Vec<Command> = Vec::new();
                cmds.push(Command::KillBot { reason: "Balance reached zero".to_owned() });
                cmds.push(
                    Command::LogCycle {
                        entry: error_log(0, "Balance reached zero — bot terminated".to_owned()),
                    },
                );
                (Phase::Done, cmds)
            } else if b < min_balance {
                let mut cmds: Vec<Command> = Vec::new();
                cmds.push(Command::LogCycle { entry: hold_log(b, "Below minimum reserve") });
                cmds.push(Command::FetchSnapshotData);
                (Phase::HoldStats { balance: b }, cmds)
            } else {
                let mut cmds: Vec<Command> = Vec::new();
                cmds.push(Command::ReadOpenPositions);
                (Phase::RiskPositions { balance: b }, cmds)
            }
        },
    }
}

fn handle_positions(balance: u64, positions: Vec<Position>) -> (r: (Phase, Vec<Command>))
    ensures
        positions_step(balance, positions@, r.0, r.1@),
{
    let mut symbols: Vec<String> = Vec::new();
    let n = positions.len();
    let mut i: usize = 0;
    while i < n
        invariant
            0 <= i <= n == positions@.len(),
            symbols@.len() == i,
            forall|j: int| 0 <= j < i ==> #[trigger] symbols@[j]@ == positions@[j].symbol@,
        decreases n - i,
    {
        symbols.push(positions[i].symbol.clone());
        i = i + 1;
    }
    let mut cmds: Vec<Command> = Vec::new();
    cmds.push(Command::FetchPrices { symbols });
    (Phase::RiskPrices { balance, positions }, cmds)
}

fn handle_prices(balance: u64, positions: Vec<Position>, prices: Vec<Option<u64>>) -> (r: (
    Phase,
    Vec<Command>,
))
    requires
        positions@.len() == prices@.len(),
    ensures
        prices_step(balance, positions@, prices@, r.0, r.1@),
{
    let (to_close, updates) = RiskManager::check_positions(&positions, &prices);
    let mut cmds: Vec<Command> = Vec::new();
    let nu = updates.len();
    let mut i: usize = 0;
    while i < nu
        invariant
            0 <= i <= nu == updates@.len(),
            cmds@.len() == i,
            forall|j: int| 0 <= j < i ==> #[trigger] cmds@[j] == update_cmds(updates@)[j],
        decreases nu - i,
    {
        cmds.push(
            Command::UpdatePositionPrice {
                position_id: updates[i].0.clone(),
                price: updates[i].1,
            },
        );
        i = i + 1;
    }
    assert(cmds@ =~= update_cmds(updates@));
    if to_close.len() == 0 {
        cmds.push(Command::GatherContext);
        assert(cmds@ =~= update_cmds(updates@).push(Command::GatherContext));
        (Phase::Context { balance }, cmds)
    } else {
        let ghost base = cmds@;
        let nc = to_close.len();
        let mut k: usize = 0;
        while k < nc
            invariant
                0 <= k <= nc == to_close@.len(),
                cmds@.len() == base.len() + k,
                base =~= update_cmds(updates@),
                forall|j: int| 0 <= j < base.len() ==> #[trigger] cmds@[j] == base[j],
                forall|j: int|
                    base.len() <= j < cmds@.len() ==> #[trigger] cmds@[j] == sell_cmds(to_close@)[
                        j - base.len()],
            decreases nc - k,
        {
            cmds.push(
                Command::MarketSell {
                    symbol: to_close[k].0.symbol.clone(),
                    quantity: to_close[k].0.quantity,
                },
            );
            k = k + 1;
        }
        assert(cmds@ =~= update_cmds(updates@) + sell_cmds(to_close@));
        (Phase::RiskSells { balance, to_close }, cmds)
    }
}

fn handle_sells(
    balance: u64,
    to_close: Vec<(Position, CloseReason)>,
    fills: Vec<Option<ExecutedTrade>>,
) -> (r: (Phase, Vec<Command>))
    requires
        to_close@.len() == fills@.len(),
    ensures
        sells_step(balance, to_close@, fills@, r.0, r.1@),
{
    let mut cmds: Vec<Command> = Vec::new();
    let n = to_close.len();
    let mut i: usize = 0;
    while i < n
        invariant
            0 <= i <= n == to_close@.len() == fills@.len(),
            cmds@ =~= close_cmds(to_close@.subrange(0, i as int), fills@.subrange(0, i as int)),
        decreases n - i,
    {
        proof {
            assert(to_close@.subrange(0, i + 1 as int).drop_last() =~= to_close@.subrange(
                0,
                i as int,
            ));
            assert(fills@.subrange(0, i + 1 as int).drop_last() =~= fills@.subrange(0, i as int));
            assert(to_close@.subrange(0, i + 1 as int).last() == to_close@[i as int]);
            assert(fills@.subrange(0, i + 1 as int).last() == fills@[i as int]);
        }
        match &fills[i] {
            Some(f) => {
                let pos = &to_close[i].0;
                if f.quantity <= AMOUNT_MAX && f.avg_price <= AMOUNT_MAX && f.usdc_amount
                    <= AMOUNT_MAX && f.commission <= AMOUNT_MAX && pos.quantity <= AMOUNT_MAX
                    && pos.entry_price <= AMOUNT_MAX {
                    let pnl = pnl_ticks(pos.entry_price, f.avg_price, pos.quantity);
                    cmds.push(
                        Command::ClosePosition {
                            position_id: pos.id.clone(),
                            pnl,
                            cause: to_close[i].1,
                        },
                    );
                    cmds.push(
                        Command::RecordTrade {
                            trade: Trade {
                                position_id: Some(pos.id.clone()),
                                symbol: pos.symbol.clone(),
                                side: TradingAction::Sell,
                                quantity: f.quantity,
                                price: f.avg_price,
                                usdc_amount: f.usdc_amount,
                                commission: f.commission,
                            },
                        },
                    );
                }
            },
            None => {},
        }
        i = i + 1;
    }
    proof {
        assert(to_close@.subrange(0, n as int) =~= to_close@);
        assert(fills@.subrange(0, n as int) =~= fills@);
    }
    cmds.push(Command::GatherContext);
    (Phase::Context { balance }, cmds)
}

fn handle_context(
    cfg: &CycleConfig,
    balance: u64,
    open_positions: Vec<Position>,
    tickers: Vec<Ticker24h>,
    sentiment_text: Option<String>,
    recent_results: Vec<Option<String>>,
) -> (r: (Phase, Vec<Command>))
    ensures
        context_step(
            *cfg,
            balance,
            open_positions@,
            tickers@,
            sentiment_text,
            recent_results@,
            r.0,
            r.1@,
        ),
{
    let fear = sentiment_index(sentiment_text);
    let losses = consecutive_losses(&recent_results);
    let usdc = filter_usdc_tickers(&tickers);
    let prompt = build_prompt(
        balance,
        &open_positions,
        &usdc,
        fear,
        losses,
        cfg.openclaw_user_id.as_str(),
    );
    let mut cmds: Vec<Command> = Vec::new();
    cmds.push(Command::AskOracle { prompt });
    (Phase::Oracle { balance, fear_greed: fear, open_positions }, cmds)
}

fn handle_decision(
    min_balance: u64,
    balance: u64,
    fear: i32,
    open_positions: Vec<Position>,
    d: TradingDecision,
    raw: String,
    elapsed_ms: u64,
) -> (r: (Phase, Vec<Command>))
    requires
        d.wf(),
    ensures
        decision_step(
            min_balance,
            balance,
            fear,
            open_positions@,
            d,
            raw@,
            elapsed_ms,
            r.0,
            r.1@,
        ),
{
    match d.action {
        TradingAction::Hold => {
            let entry = main_log(balance, &d, raw, fear, elapsed_ms, Some(CycleResult::Hold), None);
            let mut cmds: Vec<Command> = Vec::new();
            cmds.push(Command::LogCycle { entry });
            cmds.push(Command::FetchSnapshotData);
            (Phase::MainStats { balance, fear_greed: fear, decision: d }, cmds)
        },
        TradingAction::Buy => {
            if !RiskManager::can_open_position(open_positions.len() as u64) {
                let entry = main_log(
                    balance,
                    &d,
                    raw,
                    fear,
                    elapsed_ms,
                    Some(CycleResult::SkippedMaxPositions),
                    None,
                );
                let mut cmds: Vec<Command> = Vec::new();
                cmds.push(Command::LogCycle { entry });
                cmds.push(Command::FetchSnapshotData);
                (Phase::MainStats { balance, fear_greed: fear, decision: d }, cmds)
            } else {
                let size = PositionSizer::calculate(balance, d.confidence, min_balance);
                if size == 0 {
                    let entry = main_log(
                        balance,
                        &d,
                        raw,
                        fear,
                        elapsed_ms,
                        Some(CycleResult::SkippedInsufficientSize),
                        None,
                    );
                    let mut cmds: Vec<Command> = Vec::new();
                    cmds.push(Command::LogCycle { entry });
                    cmds.push(Command::FetchSnapshotData);
                    (Phase::MainStats { balance, fear_greed: fear, decision: d }, cmds)
                } else {
                    let sym = match &d.symbol {
                        Some(s) => s.clone(),
                        None => String::new(),
                    };
                    let mut cmds: Vec<Command> = Vec::new();
                    cmds.push(Command::MarketBuy { symbol: sym, quote_amount: size });
                    (Phase::ExecuteBuy { balance, fear_greed: fear, decision: d, raw }, cmds)
                }
            }
        },
        TradingAction::Sell => {
            let sym = match &d.symbol {
                Some(s) => s.clone(),
                None => String::new(),
            };
            match position_for(&open_positions, &sym) {
                None => {
                    let entry = main_log(
                        balance,
                        &d,
                        raw,
                        fear,
                        elapsed_ms,
                        Some(CycleResult::SkippedNoOpenPosition),
                        None,
                    );
                    let mut cmds: Vec<Command> = Vec::new();
                    cmds.push(Command::LogCycle { entry });
                    cmds.push(Command::FetchSnapshotData);
                    (Phase::MainStats { balance, fear_greed: fear, decision: d }, cmds)
                },
                Some(pos) => {
                    let mut cmds: Vec<Command> = Vec::new();
                    cmds.push(
                        Command::MarketSell { symbol: pos.symbol.clone(), quantity: pos.quantity },
                    );
                    (
                        Phase::ExecuteSell {
                            balance,
                            fear_greed: fear,
                            decision: d,
                            raw,
                            position: pos,
                        },
                        cmds,
                    )
                },
            }
        },
    }
}

fn handle_oracle(
    min_balance: u64,
    balance: u64,
    fear: i32,
    open_positions: Vec<Position>,
    reply: Result<Option<String>, String>,
    elapsed_ms: u64,
) -> (r: (Phase, Vec<Command>))
    ensures
        oracle_step(min_balance, balance, fear, open_positions@, reply, elapsed_ms, r.0, r.1@),
{
    match reply {
        Err(e) => {
            let mut cmds: Vec<Command> = Vec::new();
            cmds.push(Command::LogCycle { entry: error_log(balance, e) });
            (Phase::Done, cmds)
        },
        Ok(None) => {
            let mut cmds: Vec<Command> = Vec::new();
            cmds.push(Command::LogCycle { entry: hold_log(balance, "OpenClaw timeout") });
            cmds.push(Command::FetchSnapshotData);
            (Phase::HoldStats { balance }, cmds)
        },
        Ok(Some(raw)) => {
            let d = parse_decision(raw.as_str());
            let ghost dd = d;
            let r = handle_decision(
                min_balance,
                balance,
                fear,
                open_positions,
                d,
                raw,
                elapsed_ms,
            );
            proof {
                assert(dd.wf());
            }
            r
        },
    }
}

fn handle_buy(
    balance: u64,
    fear: i32,
    d: TradingDecision,
    raw: String,
    fill: Result<ExecutedTrade, String>,
    elapsed_ms: u64,
) -> (r: (Phase, Vec<Command>))
    ensures
        buy_step(balance, fear, d, raw@, fill, elapsed_ms, r.0, r.1@),
{
    match fill {
        Err(e) => {
            let entry = main_log(balance, &d, raw, fear, elapsed_ms, None, Some(e));
            let mut cmds: Vec<Command> = Vec::new();
            cmds.push(Command::LogCycle { entry });
            cmds.push(Command::FetchSnapshotData);
            (Phase::MainStats { balance, fear_greed: fear, decision: d }, cmds)
        },
        Ok(f) => {
            if !(f.quantity <= AMOUNT_MAX && f.avg_price <= AMOUNT_MAX && f.usdc_amount
                <= AMOUNT_MAX && f.commission <= AMOUNT_MAX) {
                let entry = main_log(
                    balance,
                    &d,
                    raw,
                    fear,
                    elapsed_ms,
                    None,
                    Some("fill out of representable range".to_owned()),
                );
                let mut cmds: Vec<Command> = Vec::new();
                cmds.push(Command::LogCycle { entry });
                cmds.push(Command::FetchSnapshotData);
                (Phase::MainStats { balance, fear_greed: fear, decision: d }, cmds)
            } else {
                let enforced = match d.stop_loss {
                    Some(sl) => RiskManager::validate_stop_loss(f.avg_price, sl),
                    None => RiskManager::validate_stop_loss(f.avg_price, 0),
                };
                let sym = match &d.symbol {
                    Some(s) => s.clone(),
                    None => String::new(),
                };
                let sym2 = sym.clone();
                let position = NewPosition {
                    symbol: sym,
                    side: TradingAction::Buy,
                    quantity: f.quantity,
                    entry_price: f.avg_price,
                    stop_loss: Some(enforced),
                    take_profit: d.take_profit,
                };
                let trade = Trade {
                    position_id: None,
                    symbol: sym2,
                    side: TradingAction::Buy,
                    quantity: f.quantity,
                    price: f.avg_price,
                    usdc_amount: f.usdc_amount,
                    commission: f.commission,
                };
                let entry = main_log(
                    balance,
                    &d,
                    raw,
                    fear,
                    elapsed_ms,
                    Some(CycleResult::BuyExecuted),
                    None,
                );
                let mut cmds: Vec<Command> = Vec::new();
                cmds.push(Command::OpenPosition { position, trade });
                cmds.push(Command::LogCycle { entry });
                cmds.push(Command::FetchSnapshotData);
                (Phase::MainStats { balance, fear_greed: fear, decision: d }, cmds)
            }
        },
    }
}

fn handle_sell(
    balance: u64,
    fear: i32,
    d: TradingDecision,
    raw: String,
    position: Position,
    fill: Result<ExecutedTrade, String>,
    elapsed_ms: u64,
) -> (r: (Phase, Vec<Command>))
    ensures
        sell_step(balance, fear, d, raw@, position, fill, elapsed_ms, r.0, r.1@),
{
    match fill {
        Err(e) => {
            let entry = main_log(balance, &d, raw, fear, elapsed_ms, None, Some(e));
            let mut cmds: Vec<Command> = Vec::new();
            cmds.push(Command::LogCycle { entry });
            cmds.push(Command::FetchSnapshotData);
            (Phase::MainStats { balance, fear_greed: fear, decision: d }, cmds)
        },
        Ok(f) => {
            if !(f.quantity <= AMOUNT_MAX && f.avg_price <= AMOUNT_MAX && f.usdc_amount
                <= AMOUNT_MAX && f.commission <= AMOUNT_MAX && position.quantity <= AMOUNT_MAX
                && position.entry_price <= AMOUNT_MAX) {
                let entry = main_log(
                    balance,
                    &d,
                    raw,
                    fear,
                    elapsed_ms,
                    None,
                    Some("fill out of representable range".to_owned()),
                );
                let mut cmds: Vec<Command> = Vec::new();
                cmds.push(Command::LogCycle { entry });
                cmds.push(Command::FetchSnapshotData);
                (Phase::MainStats { balance, fear_greed: fear, decision: d }, cmds)
            } else {
                let pnl = pnl_ticks(position.entry_price, f.avg_price, position.quantity);
                let result = if pnl >= 0 {
                    CycleResult::Win
                } else {
                    CycleResult::Loss
                };
                let entry = main_log(balance, &d, raw, fear, elapsed_ms, Some(result), None);
                let mut cmds: Vec<Command> = Vec::new();
                cmds.push(
                    Command::ClosePosition {
                        position_id: position.id.clone(),
                        pnl,
                        cause: CloseReason::SellDecision,
                    },
                );
                cmds.push(
                    Command::RecordTrade {
                        trade: Trade {
                            position_id: Some(position.id.clone()),
                            symbol: position.symbol.clone(),
                            side: TradingAction::Sell,
                            quantity: f.quantity,
                            price: f.avg_price,
                            usdc_amount: f.usdc_amount,
                            commission: f.commission,
                        },
                    },
                );
                cmds.push(Command::LogCycle { entry });
                cmds.push(Command::FetchSnapshotData);
                (Phase::MainStats { balance, fear_greed: fear, decision: d }, cmds)
            }
        },
    }
}

// ─── The machine ─────────────────────────────────────────

impl CycleMachine {
    /// A machine ready to run one cycle.
    pub fn new(config: CycleConfig) -> (r: CycleMachine)
        ensures
            r.phase is Start,
            r.config == config,
    {
        CycleMachine { config, phase: Phase::Start }
    }

    /// Whether the cycle is over.
    pub fn is_done(&self) -> (r: bool)
        ensures
            r == (self.phase is Done),
    {
        match self.phase {
            Phase::Done => true,
            _ => false,
        }
    }

    /// The request that begins a cycle.
    pub fn initial_commands(&self) -> (r: Vec<Command>)
        ensures
            r@ =~= seq![Command::ReadLifecycle],
    {
        let mut cmds: Vec<Command> = Vec::new();
        cmds.push(Command::ReadLifecycle);
        cmds
    }

    /// Drive the cycle one step: consume the outcome of the last request
    /// and answer with the effects to perform next, as `step_ok` states.
    pub fn advance(self, event: CycleEvent) -> (r: (CycleMachine, Vec<Command>))
        ensures
            step_ok(self, event, r.0, r.1@),
    {
        let CycleMachine { config, phase } = self;
        match (phase, event) {
            (Phase::Start, CycleEvent::LifecycleRead { is_dead }) => {
                if is_dead {
                    (CycleMachine { config, phase: Phase::Done }, Vec::new())
                } else {
                    let mut cmds: Vec<Command> = Vec::new();
                    cmds.push(Command::FetchBalance);
                    (CycleMachine { config, phase: Phase::BalanceCheck }, cmds)
                }
            },
            (Phase::BalanceCheck, CycleEvent::BalanceFetched { result }) => {
                let min = config.min_balance_usdc;
                let (p, cmds) = handle_balance(min, result);
                (CycleMachine { config, phase: p }, cmds)
            },
            (Phase::RiskPositions { balance }, CycleEvent::PositionsRead { positions }) => {
                let (p, cmds) = handle_positions(balance, positions);
                (CycleMachine { config, phase: p }, cmds)
            },
            (
                Phase::RiskPrices { balance, positions },
                CycleEvent::PricesFetched { prices },
            ) => {
                if prices.len() == positions.len() {
                    let (p, cmds) = handle_prices(balance, positions, prices);
                    (CycleMachine { config, phase: p }, cmds)
                } else {
                    (
                        CycleMachine { config, phase: Phase::RiskPrices { balance, positions } },
                        Vec::new(),
                    )
                }
            },
            (Phase::RiskSells { balance, to_close }, CycleEvent::SellsExecuted { fills }) => {
                if fills.len() == to_close.len() {
                    let (p, cmds) = handle_sells(balance, to_close, fills);
                    (CycleMachine { config, phase: p }, cmds)
                } else {
                    (
                        CycleMachine { config, phase: Phase::RiskSells { balance, to_close } },
                        Vec::new(),
                    )
                }
            },
            (
                Phase::Context { balance },
                CycleEvent::ContextRead { open_positions, tickers, sentiment_text, recent_results },
            ) => {
                let (p, cmds) = handle_context(
                    &config,
                    balance,
                    open_positions,
                    tickers,
                    sentiment_text,
                    recent_results,
                );
                (CycleMachine { config, phase: p }, cmds)
            },
            (
                Phase::Oracle { balance, fear_greed, open_positions },
                CycleEvent::OracleReplied { reply, elapsed_ms },
            ) => {
                let min = config.min_balance_usdc;
                let (p, cmds) = handle_oracle(
                    min,
                    balance,
                    fear_greed,
                    open_positions,
                    reply,
                    elapsed_ms,
                );
                (CycleMachine { config, phase: p }, cmds)
            },
            (
                Phase::ExecuteBuy { balance, fear_greed, decision, raw },
                CycleEvent::BuyExecuted { fill, elapsed_ms },
            ) => {
                let (p, cmds) = handle_buy(balance, fear_greed, decision, raw, fill, elapsed_ms);
                (CycleMachine { config, phase: p }, cmds)
            },
            (
                Phase::ExecuteSell { balance, fear_greed, decision, raw, position },
                CycleEvent::SellExecuted { fill, elapsed_ms },
            ) => {
                let (p, cmds) = handle_sell(
                    balance,
                    fear_greed,
                    decision,
                    raw,
                    position,
                    fill,
                    elapsed_ms,
                );
                (CycleMachine { config, phase: p }, cmds)
            },
            (
                Phase::MainStats { balance, fear_greed, decision },
                CycleEvent::StatsRead { balance: updated, open_count, total_pnl, cycle_count },
            ) => {
                let b = match updated {
                    Some(v) => v,
                    None => balance,
                };
                let snapshot = BalanceHistory {
                    balance_usdc: b,
                    open_positions: open_count,
                    total_pnl,
                };
                let update = CycleUpdate {
                    cycle_number: cycle_count,
                    balance_usdc: b,
                    action: decision.action,
                    symbol: clone_opt_string(&decision.symbol),
                    confidence: Some(decision.confidence),
                    reasoning: Some(decision.reasoning.clone()),
                    pnl: total_pnl,
                    fear_greed: Some(fear_greed),
                };
                let mut cmds: Vec<Command> = Vec::new();
                cmds.push(Command::RecordSnapshot { snapshot });
                cmds.push(Command::Broadcast { update });
                (CycleMachine { config, phase: Phase::Done }, cmds)
            },
            (
                Phase::HoldStats { balance },
                CycleEvent::StatsRead { balance: _, open_count, total_pnl, cycle_count: _ },
            ) => {
                let snapshot = BalanceHistory {
                    balance_usdc: balance,
                    open_positions: open_count,
                    total_pnl,
                };
                let mut cmds: Vec<Command> = Vec::new();
                cmds.push(Command::RecordSnapshot { snapshot });
                (CycleMachine { config, phase: Phase::Done }, cmds)
            },
            (p, _) => (CycleMachine { config, phase: p }, Vec::new()),
        }
    }
}

// ─── Laws of the machine ─────────────────────────────────

/// Once the lifecycle is dead a cycle is a no-op: the first step ends the
/// machine with no command at all — no store write, no exchange call, no
/// oracle call — and that holds again on every later run until a revive
/// changes what the lifecycle read returns.
pub proof fn lemma_dead_cycle_is_noop(
    pre: CycleMachine,
    event: CycleEvent,
    post: CycleMachine,
    cmds: Seq<Command>,
)
    requires
        pre.phase is Start,
        event matches CycleEvent::LifecycleRead { is_dead: true },
        step_ok(pre, event, post, cmds),
    ensures
        cmds.len() == 0,
        post.phase is Done,
{
}

/// A finished machine never acts again, whatever events it is fed.
pub proof fn lemma_done_absorbs(
    pre: CycleMachine,
    event: CycleEvent,
    post: CycleMachine,
    cmds: Seq<Command>,
)
    requires
        pre.phase is Done,
        step_ok(pre, event, post, cmds),
    ensures
        cmds.len() == 0,
        post.phase is Done,
{
}

/// A zero balance ends the bot: the step kills the lifecycle with the
/// reason set, logs an error cycle, and terminates — in particular the
/// oracle is never consulted and no order is placed.
pub proof fn lemma_zero_balance_dies(
    pre: CycleMachine,
    event: CycleEvent,
    post: CycleMachine,
    cmds: Seq<Command>,
)
    requires
        pre.phase is BalanceCheck,
        event matches CycleEvent::BalanceFetched { result: Ok(b) } && b == 0,
        step_ok(pre, event, post, cmds),
    ensures
        post.phase is Done,
        cmds.len() == 2,
        cmds[0] matches Command::KillBot { reason } && reason@ == "Balance reached zero"@,
        cmds[1] matches Command::LogCycle { entry } && is_error_log(
            entry,
            0,
            "Balance reached zero — bot terminated"@,
        ),
        forall|i: int|
            0 <= i < cmds.len() ==> !(#[trigger] cmds[i] is AskOracle) && !(cmds[i] is MarketBuy)
                && !(cmds[i] is MarketSell),
{
}

} // verus!
