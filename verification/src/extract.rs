//! Extracting the JSON document from an oracle reply: prefer the content of
//! a fenced code block (labeled `json` or unlabeled); otherwise the first
//! top-level brace-matched span.

use vstd::prelude::*;
use crate::text::{find_byte, find_byte_from, lemma_find_byte_props};

verus! {

pub const BYTE_BACKTICK: u8 = 96;
pub const BYTE_OPEN_BRACE: u8 = 123;
pub const BYTE_CLOSE_BRACE: u8 = 125;
pub const BYTE_SPACE: u8 = 32;
pub const BYTE_TAB: u8 = 9;
pub const BYTE_LF: u8 = 10;
pub const BYTE_CR: u8 = 13;

pub open spec fn is_ws_byte(b: u8) -> bool {
    b == BYTE_SPACE || b == BYTE_TAB || b == BYTE_LF || b == BYTE_CR
}

/// The three-backtick fence marker.
pub open spec fn fence_pat() -> Seq<u8> {
    seq![BYTE_BACKTICK, BYTE_BACKTICK, BYTE_BACKTICK]
}

/// The bytes of the fence label `json`.
pub open spec fn json_label() -> Seq<u8> {
    seq![106u8, 115u8, 111u8, 110u8]
}

/// Whether `pat` occurs in `s` at position `i`.
pub open spec fn matches_at(s: Seq<u8>, pat: Seq<u8>, i: int) -> bool {
    0 <= i && i + pat.len() <= s.len() && s.subrange(i, i + pat.len()) == pat
}

/// Index of the first occurrence of `pat` at or after `from`; `s.len()`
/// when there is none.
pub open spec fn find_pat_from(s: Seq<u8>, pat: Seq<u8>, from: int) -> int
    decreases s.len() + 1 - from,
{
    if from < 0 {
        find_pat_from(s, pat, 0)
    } else if from + pat.len() > s.len() {
        s.len() as int
    } else if matches_at(s, pat, from) {
        from
    } else {
        find_pat_from(s, pat, from + 1)
    }
}

pub proof fn lemma_find_pat_props(s: Seq<u8>, pat: Seq<u8>, from: int)
    requires
        0 <= from <= s.len(),
        pat.len() > 0,
    ensures
        from <= find_pat_from(s, pat, from) <= s.len(),
        find_pat_from(s, pat, from) < s.len() ==> matches_at(s, pat, find_pat_from(s, pat, from)),
        forall|j: int| from <= j < find_pat_from(s, pat, from) ==> !matches_at(s, pat, j),
    decreases s.len() - from,
{
    if from + pat.len() > s.len() {
        assert(forall|j: int| j >= from ==> !matches_at(s, pat, j));
    } else if !matches_at(s, pat, from) {
        lemma_find_pat_props(s, pat, from + 1);
    }
}

proof fn lemma_find_pat_at(s: Seq<u8>, pat: Seq<u8>, from: int, i: int)
    requires
        0 <= from <= i,
        pat.len() > 0,
        matches_at(s, pat, i),
        forall|j: int| from <= j < i ==> !matches_at(s, pat, j),
    ensures
        find_pat_from(s, pat, from) == i,
    decreases i - from,
{
    if from < i {
        lemma_find_pat_at(s, pat, from + 1, i);
    }
}

proof fn lemma_find_pat_none(s: Seq<u8>, pat: Seq<u8>, from: int, upto: int)
    requires
        0 <= from,
        pat.len() > 0,
        upto + pat.len() > s.len(),
        forall|j: int| from <= j < upto ==> !matches_at(s, pat, j),
    ensures
        find_pat_from(s, pat, from) == s.len(),
    decreases s.len() - from,
{
    if from + pat.len() <= s.len() {
        assert(!matches_at(s, pat, from)) by {
            if from >= upto {
                assert(from + pat.len() > s.len());
            }
        }
        lemma_find_pat_none(s, pat, from + 1, upto);
    }
}

/// First index in `[i, end)` holding a non-whitespace byte; `end` if none.
pub open spec fn skip_ws(s: Seq<u8>, i: int, end: int) -> int
    decreases end - i,
{
    if i < 0 || i >= end || i >= s.len() {
        end
    } else if is_ws_byte(s[i]) {
        skip_ws(s, i + 1, end)
    } else {
        i
    }
}

/// Largest j in `(start, j0]` such that `s[j - 1]` is not whitespace;
/// `start` if all of it is.
pub open spec fn rskip_ws(s: Seq<u8>, start: int, j: int) -> int
    decreases j - start,
{
    if j <= start || j > s.len() || j < 1 {
        start
    } else if is_ws_byte(s[j - 1]) {
        rskip_ws(s, start, j - 1)
    } else {
        j
    }
}

/// The whitespace-trimmed subspan of `[a, b)`.
pub open spec fn spec_trim_span(s: Seq<u8>, a: int, b: int) -> (int, int) {
    let a2 = skip_ws(s, a, b);
    let b2 = rskip_ws(s, a2, b);
    (a2, b2)
}

/// Index of the `}` closing a brace scan that stands at depth `depth`
/// inside `s` at position `i`; `s.len()` when the braces never balance.
pub open spec fn spec_match_close(s: Seq<u8>, i: int, depth: int) -> int
    decreases s.len() - i,
{
    if i < 0 || i >= s.len() {
        s.len() as int
    } else if s[i] == BYTE_CLOSE_BRACE && depth == 0 {
        i
    } else if s[i] == BYTE_CLOSE_BRACE {
        spec_match_close(s, i + 1, depth - 1)
    } else if s[i] == BYTE_OPEN_BRACE {
        spec_match_close(s, i + 1, depth + 1)
    } else {
        spec_match_close(s, i + 1, depth)
    }
}

pub proof fn lemma_match_close_range(s: Seq<u8>, i: int, depth: int)
    requires
        0 <= i <= s.len(),
    ensures
        i <= spec_match_close(s, i, depth) <= s.len(),
    decreases s.len() - i,
{
    if i < s.len() && !(s[i] == BYTE_CLOSE_BRACE && depth == 0) {
        if s[i] == BYTE_CLOSE_BRACE {
            lemma_match_close_range(s, i + 1, depth - 1);
        } else if s[i] == BYTE_OPEN_BRACE {
            lemma_match_close_range(s, i + 1, depth + 1);
        } else {
            lemma_match_close_range(s, i + 1, depth);
        }
    }
}

/// The span of the first top-level brace-matched object, if any.
pub open spec fn spec_extract_obj(s: Seq<u8>) -> Option<(int, int)> {
    let o = find_byte(s, BYTE_OPEN_BRACE);
    if o < s.len() {
        let c = spec_match_close(s, o + 1, 0);
        if c < s.len() {
            Some((o, c + 1))
        } else {
            None
        }
    } else {
        None
    }
}

/// The span of the JSON document inside an oracle reply: the trimmed
/// content of the first complete code fence (an optional `json` label
/// skipped), else the first brace-matched object span.
pub open spec fn spec_extract(s: Seq<u8>) -> Option<(int, int)> {
    let f1 = find_pat_from(s, fence_pat(), 0);
    if f1 < s.len() {
        let after = f1 + 3;
        let content_start: int = if matches_at(s, json_label(), after) {
            after + 4
        } else {
            after
        };
        let f2 = find_pat_from(s, fence_pat(), content_start);
        if f2 < s.len() {
            Some(spec_trim_span(s, content_start, f2))
        } else {
            spec_extract_obj(s)
        }
    } else {
        spec_extract_obj(s)
    }
}

/// The span of the document a reply carries: the extracted span if
/// extraction succeeds, else the whole reply trimmed.
pub open spec fn spec_doc_span(s: Seq<u8>) -> (int, int) {
    match spec_extract(s) {
        Some(sp) => sp,
        None => spec_trim_span(s, 0, s.len() as int),
    }
}

proof fn lemma_skip_ws_range(s: Seq<u8>, i: int, end: int)
    requires
        0 <= i <= end <= s.len(),
    ensures
        i <= skip_ws(s, i, end) <= end,
    decreases end - i,
{
    if i < end && is_ws_byte(s[i]) {
        lemma_skip_ws_range(s, i + 1, end);
    }
}

proof fn lemma_rskip_ws_range(s: Seq<u8>, start: int, j: int)
    requires
        0 <= start <= j <= s.len(),
    ensures
        start <= rskip_ws(s, start, j) <= j,
    decreases j - start,
{
    if j > start && is_ws_byte(s[j - 1]) {
        lemma_rskip_ws_range(s, start, j - 1);
    }
}

pub proof fn lemma_trim_span_range(s: Seq<u8>, a: int, b: int)
    requires
        0 <= a <= b <= s.len(),
    ensures
        ({
            let (a2, b2) = spec_trim_span(s, a, b);
            a <= a2 <= b2 <= b
        }),
{
    lemma_skip_ws_range(s, a, b);
    let a2 = skip_ws(s, a, b);
    lemma_rskip_ws_range(s, a2, b);
}

proof fn lemma_extract_obj_range(s: Seq<u8>)
    ensures
        spec_extract_obj(s) matches Some((a, b)) ==> 0 <= a <= b <= s.len(),
{
    lemma_find_byte_props(s, BYTE_OPEN_BRACE, 0);
    let o = find_byte(s, BYTE_OPEN_BRACE);
    if 0 <= o < s.len() {
        lemma_match_close_range(s, o + 1, 0);
    }
}

/// Every span this module names stays inside the text.
pub proof fn lemma_doc_span_range(s: Seq<u8>)
    ensures
        ({
            let (a, b) = spec_doc_span(s);
            0 <= a <= b <= s.len()
        }),
{
    lemma_find_pat_props(s, fence_pat(), 0);
    let f1 = find_pat_from(s, fence_pat(), 0);
    if f1 < s.len() {
        let after = f1 + 3;
        let content_start: int = if matches_at(s, json_label(), after) {
            after + 4
        } else {
            after
        };
        lemma_find_pat_props(s, fence_pat(), content_start);
        let f2 = find_pat_from(s, fence_pat(), content_start);
        if f2 < s.len() {
            lemma_trim_span_range(s, content_start, f2);
        } else {
            lemma_extract_obj_range(s);
        }
    } else {
        lemma_extract_obj_range(s);
    }
    lemma_trim_span_range(s, 0, s.len() as int);
}

// ─── Executable scanning ─────────────────────────────────

/// Find the first occurrence of the fence marker at or after `from`.
fn find_fence(s: &[u8], from: usize) -> (r: usize)
    requires
        from <= s@.len(),
    ensures
        r == find_pat_from(s@, fence_pat(), from as int),
{
    let n = s.len();
    if n < 3 {
        proof {
            lemma_find_pat_none(s@, fence_pat(), from as int, from as int);
        }
        return n;
    }
    let mut i: usize = from;
    while i <= n - 3
        invariant
            from <= i,
            i <= n,
            3 <= n == s@.len(),
            forall|j: int| from <= j < i ==> !matches_at(s@, fence_pat(), j),
        decreases n - i,
    {
        if s[i] == BYTE_BACKTICK && s[i + 1] == BYTE_BACKTICK && s[i + 2] == BYTE_BACKTICK {
            proof {
                assert(s@.subrange(i as int, i + 3 as int) =~= fence_pat());
                lemma_find_pat_at(s@, fence_pat(), from as int, i as int);
            }
            return i;
        }
        proof {
            assert(!matches_at(s@, fence_pat(), i as int)) by {
                if matches_at(s@, fence_pat(), i as int) {
                    assert(s@.subrange(i as int, i + 3 as int)[0] == s@[i as int]);
                    assert(s@.subrange(i as int, i + 3 as int)[1] == s@[i + 1]);
                    assert(s@.subrange(i as int, i + 3 as int)[2] == s@[i + 2]);
                }
            }
        }
        i = i + 1;
    }
    proof {
        lemma_find_pat_none(s@, fence_pat(), from as int, i as int);
    }
    n
}

/// Whether the label `json` stands at `i`.
fn has_label_at(s: &[u8], i: usize) -> (r: bool)
    requires
        i <= s@.len(),
    ensures
        r == matches_at(s@, json_label(), i as int),
{
    let n = s.len();
    if n < 4 || i > n - 4 {
        return false;
    }
    let r = s[i] == 106 && s[i + 1] == 115 && s[i + 2] == 111 && s[i + 3] == 110;
    proof {
        if r {
            assert(s@.subrange(i as int, i + 4 as int) =~= json_label());
        } else {
            if matches_at(s@, json_label(), i as int) {
                assert(s@.subrange(i as int, i + 4 as int)[0] == s@[i as int]);
                assert(s@.subrange(i as int, i + 4 as int)[1] == s@[i + 1]);
                assert(s@.subrange(i as int, i + 4 as int)[2] == s@[i + 2]);
                assert(s@.subrange(i as int, i + 4 as int)[3] == s@[i + 3]);
            }
        }
    }
    r
}

fn ws_at(s: &[u8], i: usize) -> (r: bool)
    requires
        i < s@.len(),
    ensures
        r == is_ws_byte(s@[i as int]),
{
    let c = s[i];
    c == BYTE_SPACE || c == BYTE_TAB || c == BYTE_LF || c == BYTE_CR
}

/// Trim whitespace from both ends of `[a, b)`.
pub fn trim_span(s: &[u8], a: usize, b: usize) -> (r: (usize, usize))
    requires
        a <= b <= s@.len(),
    ensures
        (r.0 as int, r.1 as int) == spec_trim_span(s@, a as int, b as int),
        a <= r.0 <= r.1 <= b,
{
    proof {
        lemma_trim_span_range(s@, a as int, b as int);
    }
    let mut a2: usize = a;
    while a2 < b && ws_at(s, a2)
        invariant
            a <= a2 <= b <= s@.len(),
            skip_ws(s@, a as int, b as int) == skip_ws(s@, a2 as int, b as int),
        decreases b - a2,
    {
        a2 = a2 + 1;
    }
    assert(skip_ws(s@, a2 as int, b as int) == a2);
    let mut b2: usize = b;
    while b2 > a2 && ws_at(s, b2 - 1)
        invariant
            a2 <= b2 <= b <= s@.len(),
            rskip_ws(s@, a2 as int, b as int) == rskip_ws(s@, a2 as int, b2 as int),
        decreases b2,
    {
        b2 = b2 - 1;
    }
    assert(rskip_ws(s@, a2 as int, b2 as int) == b2);
    (a2, b2)
}

proof fn lemma_find_byte_at(s: Seq<u8>, b: u8, from: int, i: int)
    requires
        0 <= from <= i < s.len(),
        s[i] == b,
        forall|j: int| from <= j < i ==> s[j] != b,
    ensures
        find_byte_from(s, b, from) == i,
    decreases i - from,
{
    if from < i {
        lemma_find_byte_at(s, b, from + 1, i);
    }
}

/// Find the first brace-matched object span.
fn extract_obj(s: &[u8]) -> (r: Option<(usize, usize)>)
    ensures
        match r {
            Some((a, b)) => spec_extract_obj(s@) == Some((a as int, b as int)),
            None => spec_extract_obj(s@) is None,
        },
{
    let n = s.len();
    let mut o: usize = 0;
    while o < n && s[o] != BYTE_OPEN_BRACE
        invariant
            0 <= o <= n,
            n == s@.len(),
            forall|j: int| 0 <= j < o ==> s@[j] != BYTE_OPEN_BRACE,
        decreases n - o,
    {
        o = o + 1;
    }
    proof {
        lemma_find_byte_props(s@, BYTE_OPEN_BRACE, 0);
        if o < n {
            lemma_find_byte_at(s@, BYTE_OPEN_BRACE, 0, o as int);
        }
    }
    if o == n {
        return None;
    }
    let mut i: usize = o + 1;
    let mut depth: usize = 0;
    while i < n
        invariant
            o + 1 <= i <= n,
            n == s@.len(),
            depth <= i,
            find_byte(s@, BYTE_OPEN_BRACE) == o,
            o < n,
            spec_match_close(s@, o + 1, 0) == spec_match_close(s@, i as int, depth as int),
        decreases n - i,
    {
        let c = s[i];
        if c == BYTE_CLOSE_BRACE && depth == 0 {
            return Some((o, i + 1));
        }
        if c == BYTE_CLOSE_BRACE {
            depth = depth - 1;
        } else if c == BYTE_OPEN_BRACE {
            depth = depth + 1;
        }
        i = i + 1;
    }
    None
}

/// The span of the JSON document inside an oracle reply.
pub fn extract_json(s: &[u8]) -> (r: Option<(usize, usize)>)
    ensures
        match r {
            Some((a, b)) => spec_extract(s@) == Some((a as int, b as int)) && a <= b <= s@.len(),
            None => spec_extract(s@) is None,
        },
{
    proof {
        lemma_doc_span_range(s@);
    }
    let n = s.len();
    let f1 = find_fence(s, 0);
    proof {
        lemma_find_pat_props(s@, fence_pat(), 0);
    }
    if f1 < n {
        let after = f1 + 3;
        let content_start = if has_label_at(s, after) {
            after + 4
        } else {
            after
        };
        let f2 = find_fence(s, content_start);
        proof {
            lemma_find_pat_props(s@, fence_pat(), content_start as int);
        }
        if f2 < n {
            let (a, b) = trim_span(s, content_start, f2);
            return Some((a, b));
        }
    }
    match extract_obj(s) {
        Some((a, b)) => {
            proof {
                lemma_extract_obj_range(s@);
            }
            Some((a, b))
        },
        None => None,
    }
}

} // verus!
