//! Market selection for the oracle prompt: keep the quote-currency pairs
//! and order them by traded volume.

use vstd::prelude::*;
use crate::models::{Ticker24h, amount_or_zero};
use crate::text::parse_amount;

verus! {

/// The 24-hour quote volume a ticker reports, in ticks; zero when its
/// text does not parse.
pub open spec fn spec_volume(t: Ticker24h) -> u64 {
    amount_or_zero(t.quote_volume@)
}

/// Whether `s` ends with `suffix`.
pub open spec fn spec_ends_with(s: Seq<char>, suffix: Seq<char>) -> bool {
    s.len() >= suffix.len() && s.subrange(s.len() - suffix.len(), s.len() as int) == suffix
}

/// The tickers of quote-currency pairs, in their reported order.
pub open spec fn spec_usdc_tickers(ts: Seq<Ticker24h>) -> Seq<Ticker24h>
    decreases ts.len(),
{
    if ts.len() == 0 {
        Seq::empty()
    } else {
        let rest = spec_usdc_tickers(ts.drop_last());
        if spec_ends_with(ts.last().symbol@, "USDC"@) {
            rest.push(ts.last())
        } else {
            rest
        }
    }
}

/// Ordered by volume, largest first.
pub open spec fn sorted_by_volume_desc(ts: Seq<Ticker24h>) -> bool {
    forall|i: int, j: int|
        0 <= i < j < ts.len() ==> spec_volume(#[trigger] ts[i]) >= spec_volume(#[trigger] ts[j])
}

/// The reported quote volume of a ticker.
pub fn volume_of(t: &Ticker24h) -> (r: u64)
    ensures
        r == spec_volume(*t),
{
    match parse_amount(t.quote_volume.as_str().as_bytes()) {
        Some(v) => v,
        None => 0,
    }
}

fn ends_with_usdc(s: &String) -> (r: bool)
    ensures
        r == spec_ends_with(s@, "USDC"@),
{
    proof {
        reveal_strlit("USDC");
    }
    let st = s.as_str();
    let n = st.unicode_len();
    if n < 4 {
        return false;
    }
    let r = st.get_char(n - 4) == 'U' && st.get_char(n - 3) == 'S' && st.get_char(n - 2) == 'D'
        && st.get_char(n - 1) == 'C';
    proof {
        let suf = s@.subrange(s@.len() - 4, s@.len() as int);
        assert(suf.len() == 4);
        assert(suf[0] == s@[s@.len() - 4]);
        assert(suf[1] == s@[s@.len() - 3]);
        assert(suf[2] == s@[s@.len() - 2]);
        assert(suf[3] == s@[s@.len() - 1]);
        if r {
            assert(suf =~= "USDC"@);
        } else {
            assert(suf != "USDC"@) by {
                if suf == "USDC"@ {
                    assert(suf[0] == 'U' && suf[1] == 'S' && suf[2] == 'D' && suf[3] == 'C');
                }
            }
        }
    }
    r
}

/// Keep the quote-currency pairs.
pub fn filter_usdc_tickers(tickers: &Vec<Ticker24h>) -> (r: Vec<Ticker24h>)
    ensures
        r@ == spec_usdc_tickers(tickers@),
{
    let mut r: Vec<Ticker24h> = Vec::new();
    let n = tickers.len();
    let mut i: usize = 0;
    while i < n
        invariant
            0 <= i <= n == tickers@.len(),
            r@ == spec_usdc_tickers(tickers@.subrange(0, i as int)),
        decreases n - i,
    {
        proof {
            assert(tickers@.subrange(0, i + 1 as int).drop_last() =~= tickers@.subrange(
                0,
                i as int,
            ));
            assert(tickers@.subrange(0, i + 1 as int).last() == tickers@[i as int]);
        }
        if ends_with_usdc(&tickers[i].symbol) {
            r.push(tickers[i].clone());
        }
        i = i + 1;
    }
    proof {
        assert(tickers@.subrange(0, n as int) =~= tickers@);
    }
    r
}

/// The index of the first ticker attaining the largest volume: a later
/// ticker displaces an earlier one only with a strictly larger volume.
pub open spec fn spec_first_max_index(ts: Seq<Ticker24h>) -> int
    decreases ts.len(),
{
    if ts.len() <= 1 {
        0
    } else {
        let r = spec_first_max_index(ts.drop_last());
        if spec_volume(ts.last()) > spec_volume(ts[r]) {
            ts.len() - 1
        } else {
            r
        }
    }
}

proof fn lemma_first_max_index_range(ts: Seq<Ticker24h>)
    requires
        ts.len() > 0,
    ensures
        0 <= spec_first_max_index(ts) < ts.len(),
    decreases ts.len(),
{
    if ts.len() > 1 {
        lemma_first_max_index_range(ts.drop_last());
    }
}

/// The volume-descending order of a ticker list: repeatedly take the first
/// ticker of largest volume. This fixes the order completely — ties keep
/// their reported order — so the sort is a function of its input.
pub open spec fn spec_sort_desc(ts: Seq<Ticker24h>) -> Seq<Ticker24h>
    decreases ts.len(),
{
    if ts.len() == 0 {
        Seq::empty()
    } else {
        let k0 = spec_first_max_index(ts);
        // always in range (lemma_first_max_index_range); written so the
        // recursion visibly shrinks
        let k: int = if 0 <= k0 < ts.len() {
            k0
        } else {
            0
        };
        seq![ts[k]] + spec_sort_desc(ts.remove(k))
    }
}

/// Order tickers by reported volume, largest first: exactly
/// `spec_sort_desc` of the input — a sorted permutation with ties kept in
/// their reported order.
pub fn sort_by_volume_desc(tickers: &Vec<Ticker24h>) -> (r: Vec<Ticker24h>)
    ensures
        r@ == spec_sort_desc(tickers@),
        r@.to_multiset() == tickers@.to_multiset(),
        r@.len() == tickers@.len(),
        sorted_by_volume_desc(r@),
{
    broadcast use vstd::seq_lib::group_to_multiset_ensures;

    let mut rem: Vec<Ticker24h> = Vec::new();
    let n = tickers.len();
    let mut i: usize = 0;
    while i < n
        invariant
            0 <= i <= n == tickers@.len(),
            rem@ == tickers@.subrange(0, i as int),
        decreases n - i,
    {
        proof {
            assert(tickers@.subrange(0, i + 1 as int) =~= tickers@.subrange(0, i as int).push(
                tickers@[i as int],
            ));
        }
        rem.push(tickers[i].clone());
        i = i + 1;
    }
    proof {
        assert(tickers@.subrange(0, n as int) =~= tickers@);
    }

    let mut out: Vec<Ticker24h> = Vec::new();
    while rem.len() > 0
        invariant
            spec_sort_desc(tickers@) =~= out@ + spec_sort_desc(rem@),
            out@.to_multiset().add(rem@.to_multiset()) =~= tickers@.to_multiset(),
            out@.len() + rem@.len() == tickers@.len(),
            sorted_by_volume_desc(out@),
            forall|x: int, y: int|
                0 <= x < out@.len() && 0 <= y < rem@.len() ==> spec_volume(#[trigger] out@[x])
                    >= spec_volume(#[trigger] rem@[y]),
        decreases rem@.len(),
    {
        // index of the first largest remaining volume
        let mut best: usize = 0;
        let mut best_vol: u64 = volume_of(&rem[0]);
        let mut j: usize = 1;
        while j < rem.len()
            invariant
                0 < rem@.len(),
                0 <= best < j <= rem@.len(),
                best_vol == spec_volume(rem@[best as int]),
                best == spec_first_max_index(rem@.subrange(0, j as int)),
                forall|k: int| 0 <= k < j ==> best_vol >= spec_volume(#[trigger] rem@[k]),
            decreases rem@.len() - j,
        {
            proof {
                let p = rem@.subrange(0, j as int);
                let q = rem@.subrange(0, j + 1 as int);
                assert(q.drop_last() =~= p);
                assert(q.last() == rem@[j as int]);
                lemma_first_max_index_range(p);
                assert(q[spec_first_max_index(p)] == rem@[spec_first_max_index(p)]);
            }
            let v = volume_of(&rem[j]);
            if v > best_vol {
                best = j;
                best_vol = v;
            }
            j = j + 1;
        }
        proof {
            assert(rem@.subrange(0, rem@.len() as int) =~= rem@);
            assert(best == spec_first_max_index(rem@));
        }
        let ghost old_out = out@;
        let ghost old_rem = rem@;
        let t = rem.remove(best);
        out.push(t);
        proof {
            assert(rem@ =~= old_rem.remove(best as int));
            assert(out@ =~= old_out.push(old_rem[best as int]));
            old_out.to_multiset_ensures();
            old_rem.to_multiset_ensures();
            assert(out@.to_multiset() =~= old_out.to_multiset().insert(old_rem[best as int]));
            assert(rem@.to_multiset() =~= old_rem.to_multiset().remove(old_rem[best as int]));
            assert(old_rem.to_multiset().count(old_rem[best as int]) > 0);
            assert(out@.to_multiset().add(rem@.to_multiset()) =~= old_out.to_multiset().add(
                old_rem.to_multiset(),
            ));
            // the sort takes exactly this element next
            assert(spec_sort_desc(old_rem) =~= seq![old_rem[best as int]] + spec_sort_desc(
                old_rem.remove(best as int),
            ));
            assert(old_out + spec_sort_desc(old_rem) =~= out@ + spec_sort_desc(rem@));
            // the removed element dominated every remaining one
            assert(forall|y: int|
                0 <= y < rem@.len() ==> spec_volume(#[trigger] rem@[y]) <= best_vol) by {
                assert(forall|y: int|
                    0 <= y < rem@.len() ==> #[trigger] rem@[y] == if y < best {
                        old_rem[y]
                    } else {
                        old_rem[y + 1]
                    });
            }
        }
    }
    proof {
        assert(out@ + spec_sort_desc(rem@) =~= out@);
        assert(out@ =~= spec_sort_desc(tickers@));
    }
    out
}

} // verus!
