//! Small read-model computations: the consecutive-loss streak, the win
//! rate, the quote balance inside an account payload, the sentiment index,
//! and picking the oracle's reply out of a message list.

use vstd::prelude::*;
use vstd::utf8::encode_utf8;
use crate::models::{AccountInfo, AssetBalance, amount_or_zero};
use crate::text::{spec_parse_integer, parse_integer};

verus! {

// ─── Consecutive losses ──────────────────────────────────

/// Whether a stored cycle result marks a loss.
pub open spec fn is_loss(r: Option<String>) -> bool {
    r matches Some(s) && s@ == "LOSS"@
}

/// The number of most-recent results that are losses, stopping at the
/// first result that is not.
pub open spec fn spec_loss_streak(results: Seq<Option<String>>) -> int
    decreases results.len(),
{
    if results.len() == 0 {
        0
    } else if is_loss(results[0]) {
        1 + spec_loss_streak(results.drop_first())
    } else {
        0
    }
}

proof fn lemma_streak_skip(results: Seq<Option<String>>, i: int)
    requires
        0 <= i <= results.len(),
        forall|j: int| 0 <= j < i ==> is_loss(#[trigger] results[j]),
    ensures
        spec_loss_streak(results) == i + spec_loss_streak(results.skip(i)),
    decreases i,
{
    if i == 0 {
        assert(results.skip(0) =~= results);
    } else {
        assert(is_loss(results[0]));
        lemma_streak_skip(results.drop_first(), i - 1);
        assert(results.drop_first().skip(i - 1) =~= results.skip(i));
        assert(forall|j: int|
            0 <= j < i - 1 ==> is_loss(#[trigger] results.drop_first()[j]) == is_loss(
                results[j + 1],
            ));
    }
}

fn loss_at(results: &Vec<Option<String>>, i: usize) -> (r: bool)
    requires
        i < results@.len(),
    ensures
        r == is_loss(results@[i as int]),
{
    match &results[i] {
        Some(s) => crate::parser::str_is(s, "LOSS"),
        None => false,
    }
}

/// Count the consecutive losses at the head of a most-recent-first result
/// list, stopping at the first non-loss.
pub fn consecutive_losses(results: &Vec<Option<String>>) -> (r: u64)
    ensures
        r == spec_loss_streak(results@),
{
    let n = results.len();
    let mut i: usize = 0;
    while i < n && loss_at(results, i)
        invariant
            0 <= i <= n == results@.len(),
            forall|j: int| 0 <= j < i ==> is_loss(#[trigger] results@[j]),
        decreases n - i,
    {
        i = i + 1;
    }
    proof {
        lemma_streak_skip(results@, i as int);
        if i < n {
            assert(results@.skip(i as int)[0] == results@[i as int]);
        }
    }
    i as u64
}

// ─── Win rate ────────────────────────────────────────────

/// The share of decided cycles that were wins, in basis points; zero when
/// nothing was decided.
pub open spec fn spec_win_rate_bps(wins: int, total: int) -> int {
    if total <= 0 {
        0
    } else {
        wins * 10_000 / total
    }
}

/// The win rate in basis points.
pub fn win_rate_bps(wins: u64, total: u64) -> (r: u64)
    requires
        wins <= total,
    ensures
        r == spec_win_rate_bps(wins as int, total as int),
        r <= 10_000,
{
    if total == 0 {
        return 0;
    }
    proof {
        assert((wins as int) * 10_000 <= (u64::MAX as int) * 10_000) by (nonlinear_arith)
            requires
                wins <= u64::MAX,
        ;
    }
    let prod: u128 = (wins as u128) * 10_000;
    let wide: u128 = prod / (total as u128);
    proof {
        assert((wins as int) * 10_000 / (total as int) <= 10_000) by (nonlinear_arith)
            requires
                wins <= total,
                0 < total,
        ;
    }
    wide as u64
}

// ─── Quote balance ───────────────────────────────────────

/// The free quote-currency balance inside an account payload: the `free`
/// field of the first `USDC` entry, zero when there is none or it does not
/// parse.
pub open spec fn spec_usdc_balance(balances: Seq<AssetBalance>) -> u64
    decreases balances.len(),
{
    if balances.len() == 0 {
        0
    } else if balances[0].asset@ == "USDC"@ {
        amount_or_zero(balances[0].free@)
    } else {
        spec_usdc_balance(balances.drop_first())
    }
}

/// The free quote balance an account payload reports.
pub fn usdc_balance(account: &AccountInfo) -> (r: u64)
    ensures
        r == spec_usdc_balance(account.balances@),
{
    let n = account.balances.len();
    let mut i: usize = 0;
    while i < n && !crate::parser::str_is(&account.balances[i].asset, "USDC")
        invariant
            0 <= i <= n == account.balances@.len(),
            forall|j: int| 0 <= j < i ==> #[trigger] account.balances@[j].asset@ != "USDC"@,
        decreases n - i,
    {
        i = i + 1;
    }
    proof {
        lemma_usdc_skip(account.balances@, i as int);
        if i < n {
            assert(account.balances@.skip(i as int)[0] == account.balances@[i as int]);
        }
    }
    if i < n {
        let bytes = account.balances[i].free.as_str().as_bytes();
        match crate::text::parse_amount(bytes) {
            Some(v) => v,
            None => 0,
        }
    } else {
        0
    }
}

proof fn lemma_usdc_skip(balances: Seq<AssetBalance>, i: int)
    requires
        0 <= i <= balances.len(),
        forall|j: int| 0 <= j < i ==> #[trigger] balances[j].asset@ != "USDC"@,
    ensures
        spec_usdc_balance(balances) == spec_usdc_balance(balances.skip(i)),
    decreases i,
{
    if i == 0 {
        assert(balances.skip(0) =~= balances);
    } else {
        lemma_usdc_skip(balances.drop_first(), i - 1);
        assert(balances.drop_first().skip(i - 1) =~= balances.skip(i));
        assert(forall|j: int|
            0 <= j < i - 1 ==> #[trigger] balances.drop_first()[j] == balances[j + 1]);
    }
}

// ─── Sentiment index ─────────────────────────────────────

/// The neutral sentiment default.
pub const NEUTRAL_SENTIMENT: i32 = 50;

/// The sentiment index a fetched value text denotes: its integer value when
/// it is a plain integer on the 0 to 100 scale, else the neutral default.
pub open spec fn spec_sentiment(t: Seq<u8>) -> i32 {
    match spec_parse_integer(t) {
        Some(v) => if v <= 100 {
            v as i32
        } else {
            NEUTRAL_SENTIMENT
        },
        None => NEUTRAL_SENTIMENT,
    }
}

/// The sentiment index from a best-effort fetched value text; the neutral
/// default when the fetch failed or the text is not a scale value.
pub fn sentiment_index(value_text: Option<String>) -> (r: i32)
    ensures
        match value_text {
            Some(t) => r == spec_sentiment(encode_utf8(t@)),
            None => r == NEUTRAL_SENTIMENT,
        },
        0 <= r <= 100,
{
    match value_text {
        Some(t) => {
            match parse_integer(t.as_str().as_bytes()) {
                Some(v) => {
                    if v <= 100 {
                        v as i32
                    } else {
                        NEUTRAL_SENTIMENT
                    }
                },
                None => NEUTRAL_SENTIMENT,
            }
        },
        None => NEUTRAL_SENTIMENT,
    }
}

// ─── Oracle reply selection ──────────────────────────────

/// The first message authored by the oracle, as `(author id, content)`
/// pairs in the order polled.
pub open spec fn spec_first_reply(messages: Seq<(String, String)>, oracle: Seq<char>) -> Option<
    String,
>
    decreases messages.len(),
{
    if messages.len() == 0 {
        None
    } else if messages[0].0@ == oracle {
        Some(messages[0].1)
    } else {
        spec_first_reply(messages.drop_first(), oracle)
    }
}

/// Pick the oracle's reply out of a polled message batch: the content of
/// the first message whose author is the oracle.
pub fn select_oracle_reply(messages: &Vec<(String, String)>, oracle_user_id: &String) -> (r:
    Option<String>)
    ensures
        r == spec_first_reply(messages@, oracle_user_id@),
{
    let n = messages.len();
    let mut i: usize = 0;
    while i < n && !str_eq(&messages[i].0, oracle_user_id)
        invariant
            0 <= i <= n == messages@.len(),
            forall|j: int| 0 <= j < i ==> #[trigger] messages@[j].0@ != oracle_user_id@,
        decreases n - i,
    {
        i = i + 1;
    }
    proof {
        lemma_reply_skip(messages@, oracle_user_id@, i as int);
        if i < n {
            assert(messages@.skip(i as int)[0] == messages@[i as int]);
        }
    }
    if i < n {
        Some(messages[i].1.clone())
    } else {
        None
    }
}

fn str_eq(a: &String, b: &String) -> (r: bool)
    ensures
        r == (a@ == b@),
{
    a.eq(b)
}

proof fn lemma_reply_skip(messages: Seq<(String, String)>, oracle: Seq<char>, i: int)
    requires
        0 <= i <= messages.len(),
        forall|j: int| 0 <= j < i ==> #[trigger] messages[j].0@ != oracle,
    ensures
        spec_first_reply(messages, oracle) == spec_first_reply(messages.skip(i), oracle),
    decreases i,
{
    if i == 0 {
        assert(messages.skip(0) =~= messages);
    } else {
        lemma_reply_skip(messages.drop_first(), oracle, i - 1);
        assert(messages.drop_first().skip(i - 1) =~= messages.skip(i));
        assert(forall|j: int|
            0 <= j < i - 1 ==> #[trigger] messages.drop_first()[j] == messages[j + 1]);
    }
}


/// A sum of two tick counts, saturated to the representable range.
pub open spec fn sat_add(a: u64, b: u64) -> u64 {
    if a + b > u64::MAX {
        u64::MAX as u64
    } else {
        (a + b) as u64
    }
}

/// The non-quote assets an account holds: each entry whose free plus
/// locked total is positive and whose asset is not the quote currency,
/// as `(asset, total ticks)` in reported order.
pub open spec fn spec_nonzero_balances(balances: Seq<AssetBalance>) -> Seq<(String, u64)>
    decreases balances.len(),
{
    if balances.len() == 0 {
        Seq::empty()
    } else {
        let rest = spec_nonzero_balances(balances.drop_last());
        let b = balances.last();
        let total = sat_add(amount_or_zero(b.free@), amount_or_zero(b.locked@));
        if total > 0 && b.asset@ != "USDC"@ {
            rest.push((b.asset, total))
        } else {
            rest
        }
    }
}

/// The non-quote balances inside an account payload, for position
/// reconciliation.
pub fn nonzero_balances(account: &AccountInfo) -> (r: Vec<(String, u64)>)
    ensures
        r@ == spec_nonzero_balances(account.balances@),
{
    let mut r: Vec<(String, u64)> = Vec::new();
    let n = account.balances.len();
    let mut i: usize = 0;
    while i < n
        invariant
            0 <= i <= n == account.balances@.len(),
            r@ == spec_nonzero_balances(account.balances@.subrange(0, i as int)),
        decreases n - i,
    {
        proof {
            assert(account.balances@.subrange(0, i + 1 as int).drop_last() =~= account.balances@
                .subrange(0, i as int));
            assert(account.balances@.subrange(0, i + 1 as int).last() == account.balances@[
                i as int]);
        }
        let b = &account.balances[i];
        let free = amount_of_text(&b.free);
        let locked = amount_of_text(&b.locked);
        let total = if free > u64::MAX - locked {
            u64::MAX
        } else {
            free + locked
        };
        if total > 0 && !crate::parser::str_is(&b.asset, "USDC") {
            r.push((b.asset.clone(), total));
        }
        i = i + 1;
    }
    proof {
        assert(account.balances@.subrange(0, n as int) =~= account.balances@);
    }
    r
}

fn amount_of_text(s: &String) -> (r: u64)
    ensures
        r == amount_or_zero(s@),
{
    match crate::text::parse_amount(s.as_str().as_bytes()) {
        Some(v) => v,
        None => 0,
    }
}

} // verus!
