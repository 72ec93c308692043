//! Build the oracle prompt: balance, sentiment, loss streak, open positions
//! with live profit-and-loss, the top markets by traded volume, the trading
//! rules, and the required reply format.

use vstd::prelude::*;
use crate::models::{Position, Ticker24h};
use crate::money::UNIT;
use crate::markets::{sort_by_volume_desc, spec_sort_desc};
use crate::text::{
    spec_digits, spec_fixed, spec_signed_fixed, push_digits, push_fixed,
};

verus! {

/// How many markets the prompt shows.
pub const TOP_MARKETS: usize = 10;

/// The live profit-and-loss percentage of a position, as sign and
/// magnitude in percent ticks, against the current price (entry when no
/// current price is known). A zero entry price reads as zero.
pub open spec fn spec_pnl_pct(entry: u64, cur: u64) -> (bool, nat) {
    if entry == 0 {
        (false, 0)
    } else if cur >= entry {
        (false, ((cur - entry) * 100 * (UNIT as int) / (entry as int)) as nat)
    } else {
        (true, ((entry - cur) * 100 * (UNIT as int) / (entry as int)) as nat)
    }
}

/// One position line of the prompt.
pub open spec fn spec_position_line(p: Position) -> Seq<char> {
    let cur = match p.current_price {
        Some(c) => c,
        None => p.entry_price,
    };
    let pct = spec_pnl_pct(p.entry_price, cur);
    "  • "@ + p.symbol@ + " | Entry: $"@ + spec_fixed(p.entry_price as nat, 6) + " | Current: $"@
        + spec_fixed(cur as nat, 6) + " | P&L: "@ + spec_signed_fixed(pct.0, pct.1, 2) + "% | SL: "@
        + spec_opt_price(p.stop_loss) + " | TP: "@ + spec_opt_price(p.take_profit) + "\n"@
}

/// A price shown with six decimals, or `N/A`.
pub open spec fn spec_opt_price(o: Option<u64>) -> Seq<char> {
    match o {
        Some(v) => "$"@ + spec_fixed(v as nat, 6),
        None => "N/A"@,
    }
}

pub open spec fn spec_position_lines(ps: Seq<Position>) -> Seq<char>
    decreases ps.len(),
{
    if ps.len() == 0 {
        Seq::empty()
    } else {
        spec_position_lines(ps.drop_last()) + spec_position_line(ps.last())
    }
}

/// The open-positions block.
pub open spec fn spec_positions_block(ps: Seq<Position>) -> Seq<char> {
    if ps.len() == 0 {
        "📂 **Open Positions:** None\n\n"@
    } else {
        "📂 **Open Positions:**\n"@ + spec_position_lines(ps) + "\n"@
    }
}

/// One market line of the prompt: the exchange's own decimal texts.
pub open spec fn spec_ticker_line(t: Ticker24h) -> Seq<char> {
    "  • "@ + t.symbol@ + " | Price: $"@ + t.last_price@ + " | 24h Change: "@
        + t.price_change_percent@ + "% | Volume: $"@ + t.quote_volume@ + "\n"@
}

pub open spec fn spec_ticker_lines(ts: Seq<Ticker24h>) -> Seq<char>
    decreases ts.len(),
{
    if ts.len() == 0 {
        Seq::empty()
    } else {
        spec_ticker_lines(ts.drop_last()) + spec_ticker_line(ts.last())
    }
}

/// The fixed rules block, with the escalation rule appended after three
/// or more consecutive losses.
pub open spec fn spec_rules_block(losses: nat) -> Seq<char> {
    let base =
        "⚠️ **RULES (MUST FOLLOW):**\n1. This is a SURVIVAL game. If balance reaches $0, the bot dies forever.\n2. Only HALAL spot trading. No leverage, no shorting, no derivatives.\n3. Max 2 open positions at any time.\n4. Max 10% of tradeable balance per trade.\n5. Always set stop-loss (max 5% below entry) and take-profit.\n6. If Fear & Greed < 25 (Extreme Fear), be very conservative.\n"@;
    if losses >= 3 {
        base
            + "7. ⚡ ULTRA-CONSERVATIVE MODE: 3+ consecutive losses. Only trade with extremely high confidence.\n"@
    } else {
        base
    }
}

/// The fixed reply-format block.
pub open spec fn spec_format_block() -> Seq<char> {
    "📋 **RESPOND WITH EXACTLY THIS JSON FORMAT (no markdown, no extra text):**\n```json\n{\n  \"action\": \"BUY\" | \"SELL\" | \"HOLD\",\n  \"symbol\": \"BTCUSDC\" (required if BUY/SELL),\n  \"confidence\": 0-100,\n  \"reasoning\": \"Brief explanation of your decision\",\n  \"stop_loss\": 50000.00 (required if BUY, price to cut losses),\n  \"take_profit\": 55000.00 (required if BUY, price to take profit)\n}\n```\n"@
}

/// The whole prompt over an already-sorted market list.
pub open spec fn spec_prompt(
    balance: nat,
    positions: Seq<Position>,
    sorted_tickers: Seq<Ticker24h>,
    fear_greed: nat,
    losses: nat,
    uid: Seq<char>,
) -> Seq<char> {
    let shown = if sorted_tickers.len() <= TOP_MARKETS as int {
        sorted_tickers
    } else {
        sorted_tickers.take(TOP_MARKETS as int)
    };
    "<@"@ + uid + "> 🤖 **SURVIVAL TRADING BOT — CYCLE ANALYSIS REQUEST**\n\n"@
        + "💰 **Available USDC Balance:** $"@ + spec_fixed(balance, 2) + "\n"@
        + "📊 **Fear & Greed Index:** "@ + spec_digits(fear_greed) + "/100\n"@
        + "📉 **Consecutive Losses:** "@ + spec_digits(losses) + "\n\n"@
        + spec_positions_block(positions) + "📈 **Top USDC Pairs (by 24h volume):**\n"@
        + spec_ticker_lines(shown) + "\n"@ + spec_rules_block(losses) + "\n"@
        + spec_format_block()
}

fn push_pnl_pct(s: &mut String, entry: u64, cur: u64)
    ensures
        ({
            let pct = spec_pnl_pct(entry, cur);
            final(s)@ == old(s)@ + spec_signed_fixed(pct.0, pct.1, 2)
        }),
{
    if entry == 0 {
        push_fixed(s, 0, 2);
        return;
    }
    let (neg, diff): (bool, u64) = if cur >= entry {
        (false, cur - entry)
    } else {
        (true, entry - cur)
    };
    proof {
        assert((diff as int) * 100 * (UNIT as int) <= (0xffff_ffff_ffff_ffffu64 as int) * 100 * (
        100_000_000int)) by (nonlinear_arith)
            requires
                diff <= 0xffff_ffff_ffff_ffffu64,
                UNIT == 100_000_000u64,
        ;
        assert((diff as int) * 100 * (UNIT as int) / (entry as int) <= (diff as int) * 100 * (
        UNIT as int)) by (nonlinear_arith)
            requires
                entry >= 1,
                (diff as int) * 100 * (UNIT as int) >= 0,
        ;
    }
    let mag: u128 = (diff as u128) * 100 * (UNIT as u128) / (entry as u128);
    if neg {
        s.append("-");
        proof {
            reveal_strlit("-");
        }
    }
    push_fixed(s, mag, 2);
    proof {
        let pct = spec_pnl_pct(entry, cur);
        assert(pct.1 == mag as nat);
        if neg {
            assert(seq!['-'] =~= "-"@);
            assert(old(s)@ + "-"@ + spec_fixed(mag as nat, 2) =~= old(s)@ + (seq!['-']
                + spec_fixed(mag as nat, 2)));
        }
    }
}

fn push_opt_price(s: &mut String, o: Option<u64>)
    ensures
        final(s)@ == old(s)@ + spec_opt_price(o),
{
    match o {
        Some(v) => {
            s.append("$");
            push_fixed(s, v as u128, 6);
            proof {
                assert(old(s)@ + "$"@ + spec_fixed(v as nat, 6) =~= old(s)@ + ("$"@ + spec_fixed(
                    v as nat,
                    6,
                )));
            }
        },
        None => {
            s.append("N/A");
        },
    }
}

fn push_position_line(s: &mut String, p: &Position)
    ensures
        final(s)@ == old(s)@ + spec_position_line(*p),
{
    let cur = match p.current_price {
        Some(c) => c,
        None => p.entry_price,
    };
    s.append("  • ");
    s.append(p.symbol.as_str());
    s.append(" | Entry: $");
    push_fixed(s, p.entry_price as u128, 6);
    s.append(" | Current: $");
    push_fixed(s, cur as u128, 6);
    s.append(" | P&L: ");
    push_pnl_pct(s, p.entry_price, cur);
    s.append("% | SL: ");
    push_opt_price(s, p.stop_loss);
    s.append(" | TP: ");
    push_opt_price(s, p.take_profit);
    s.append("\n");
    proof {
        assert(final(s)@ =~= old(s)@ + spec_position_line(*p));
    }
}

fn push_ticker_line(s: &mut String, t: &Ticker24h)
    ensures
        final(s)@ == old(s)@ + spec_ticker_line(*t),
{
    s.append("  • ");
    s.append(t.symbol.as_str());
    s.append(" | Price: $");
    s.append(t.last_price.as_str());
    s.append(" | 24h Change: ");
    s.append(t.price_change_percent.as_str());
    s.append("% | Volume: $");
    s.append(t.quote_volume.as_str());
    s.append("\n");
    proof {
        assert(final(s)@ =~= old(s)@ + spec_ticker_line(*t));
    }
}

/// Build the oracle prompt: a pure function of its arguments. The markets
/// are ordered by reported volume, largest first (ties keep their reported
/// order), at most ten are shown, and the whole text is exactly
/// `spec_prompt` over that order.
#[verifier::rlimit(100)]
pub fn build_prompt(
    balance_usdc: u64,
    open_positions: &Vec<Position>,
    top_tickers: &Vec<Ticker24h>,
    fear_greed: i32,
    consecutive_losses: u64,
    openclaw_user_id: &str,
) -> (r: String)
    requires
        fear_greed >= 0,
    ensures
        r@ == spec_prompt(
            balance_usdc as nat,
            open_positions@,
            spec_sort_desc(top_tickers@),
            fear_greed as nat,
            consecutive_losses as nat,
            openclaw_user_id@,
        ),
{
    let sorted = sort_by_volume_desc(top_tickers);

    let mut s = String::new();
    s.append("<@");
    s.append(openclaw_user_id);
    s.append("> 🤖 **SURVIVAL TRADING BOT — CYCLE ANALYSIS REQUEST**\n\n");
    s.append("💰 **Available USDC Balance:** $");
    push_fixed(&mut s, balance_usdc as u128, 2);
    s.append("\n");
    s.append("📊 **Fear & Greed Index:** ");
    push_digits(&mut s, fear_greed as u128);
    s.append("/100\n");
    s.append("📉 **Consecutive Losses:** ");
    push_digits(&mut s, consecutive_losses as u128);
    s.append("\n\n");

    // positions block
    if open_positions.len() == 0 {
        s.append("📂 **Open Positions:** None\n\n");
    } else {
        s.append("📂 **Open Positions:**\n");
        let ghost before = s@;
        let n = open_positions.len();
        let mut i: usize = 0;
        while i < n
            invariant
                0 <= i <= n == open_positions@.len(),
                s@ == before + spec_position_lines(open_positions@.subrange(0, i as int)),
            decreases n - i,
        {
            proof {
                assert(open_positions@.subrange(0, i + 1 as int).drop_last() =~= open_positions@
                    .subrange(0, i as int));
                assert(open_positions@.subrange(0, i + 1 as int).last() == open_positions@[
                    i as int]);
            }
            push_position_line(&mut s, &open_positions[i]);
            i = i + 1;
        }
        proof {
            assert(open_positions@.subrange(0, n as int) =~= open_positions@);
        }
        s.append("\n");
    }

    // markets block
    s.append("📈 **Top USDC Pairs (by 24h volume):**\n");
    let shown_count = if sorted.len() <= TOP_MARKETS {
        sorted.len()
    } else {
        TOP_MARKETS
    };
    let ghost shown = if sorted@.len() <= TOP_MARKETS as int {
        sorted@
    } else {
        sorted@.take(TOP_MARKETS as int)
    };
    let ghost before_markets = s@;
    let mut i: usize = 0;
    while i < shown_count
        invariant
            0 <= i <= shown_count <= sorted@.len(),
            shown == (if sorted@.len() <= TOP_MARKETS as int {
                sorted@
            } else {
                sorted@.take(TOP_MARKETS as int)
            }),
            shown_count == shown.len(),
            s@ == before_markets + spec_ticker_lines(shown.subrange(0, i as int)),
        decreases shown_count - i,
    {
        proof {
            assert(shown.subrange(0, i + 1 as int).drop_last() =~= shown.subrange(0, i as int));
            assert(shown.subrange(0, i + 1 as int).last() == shown[i as int]);
            assert(shown[i as int] == sorted@[i as int]);
        }
        push_ticker_line(&mut s, &sorted[i]);
        i = i + 1;
    }
    proof {
        assert(shown.subrange(0, shown.len() as int) =~= shown);
    }
    s.append("\n");

    // rules block
    s.append(
        "⚠️ **RULES (MUST FOLLOW):**\n1. This is a SURVIVAL game. If balance reaches $0, the bot dies forever.\n2. Only HALAL spot trading. No leverage, no shorting, no derivatives.\n3. Max 2 open positions at any time.\n4. Max 10% of tradeable balance per trade.\n5. Always set stop-loss (max 5% below entry) and take-profit.\n6. If Fear & Greed < 25 (Extreme Fear), be very conservative.\n",
    );
    if consecutive_losses >= 3 {
        s.append(
            "7. ⚡ ULTRA-CONSERVATIVE MODE: 3+ consecutive losses. Only trade with extremely high confidence.\n",
        );
    }
    s.append("\n");

    // reply format block
    s.append(
        "📋 **RESPOND WITH EXACTLY THIS JSON FORMAT (no markdown, no extra text):**\n```json\n{\n  \"action\": \"BUY\" | \"SELL\" | \"HOLD\",\n  \"symbol\": \"BTCUSDC\" (required if BUY/SELL),\n  \"confidence\": 0-100,\n  \"reasoning\": \"Brief explanation of your decision\",\n  \"stop_loss\": 50000.00 (required if BUY, price to cut losses),\n  \"take_profit\": 55000.00 (required if BUY, price to take profit)\n}\n```\n",
    );

    proof {
        assert(s@ =~= spec_prompt(
            balance_usdc as nat,
            open_positions@,
            sorted@,
            fear_greed as nat,
            consecutive_losses as nat,
            openclaw_user_id@,
        ));
    }
    s
}

} // verus!
