//! Parse the oracle's reply into a `TradingDecision`.
//!
//! Two stages, both best-effort: extract the JSON document from the reply
//! (see `extract`), then read the decision's members out of it with
//! serde_json. Any failure — no document, malformed JSON, missing or
//! ill-typed required members, a trade action without a symbol — yields the
//! safe HOLD default. What the document's members are is named (it depends
//! on the bytes alone); given those names the decision is fixed exactly:
//! an accepted document gives the decision its members spell, anything
//! else the default.

use vstd::prelude::*;
use vstd::utf8::encode_utf8;
use crate::models::{TradingAction, TradingDecision};
use crate::money::AMOUNT_MAX;
use crate::text::{spec_parse_amount, parse_amount};
use crate::extract::{spec_doc_span, extract_json, trim_span, lemma_doc_span_range};

verus! {

// ─── Trusted view of serde_json ──────────────────────────

#[verifier::external_type_specification]
#[verifier::external_body]
pub struct ExValue(serde_json::Value);

/// Whether a byte text is one well-formed JSON document. Whether
/// `serde_json::from_slice` accepts a text depends on the bytes alone.
pub uninterp spec fn json_parses(bytes: Seq<u8>) -> bool;

/// The four readings this library takes of one JSON value: whether it is
/// null; its text if it is a string; its value if it is an integer that
/// fits a signed 64-bit word; and its decimal text if it is a number.
/// Each is a function of the value.
pub uninterp spec fn json_projections(v: serde_json::Value) -> (
    bool,
    Option<Seq<char>>,
    Option<int>,
    Option<Seq<char>>,
);

/// The members of a JSON object value, each reduced to its four readings;
/// empty for a value that is not an object.
pub uninterp spec fn json_obj_members(v: serde_json::Value) -> Map<
    Seq<char>,
    (bool, Option<Seq<char>>, Option<int>, Option<Seq<char>>),
>;

/// The members of the object a well-formed document denotes: a function of
/// the document bytes alone.
pub uninterp spec fn json_members_of(bytes: Seq<u8>) -> Map<
    Seq<char>,
    (bool, Option<Seq<char>>, Option<int>, Option<Seq<char>>),
>;

/// Relies on serde_json::from_slice::<Value>: returns `Ok` exactly on a
/// well-formed JSON document, and parsing is a function of the bytes.
#[verifier::external_body]
fn json_parse(bytes: &[u8]) -> (r: Option<serde_json::Value>)
    ensures
        (r is Some) == json_parses(bytes@),
        r matches Some(v) ==> json_obj_members(v) == json_members_of(bytes@),
{
    serde_json::from_slice::<serde_json::Value>(bytes).ok()
}

/// Relies on serde_json::Value::get: the member of a JSON object under a
/// key, `None` for a missing key or a non-object.
#[verifier::external_body]
fn json_get<'a>(v: &'a serde_json::Value, key: &str) -> (r: Option<&'a serde_json::Value>)
    ensures
        match r {
            Some(f) => json_obj_members(*v).contains_key(key@) && json_projections(*f)
                == json_obj_members(*v)[key@],
            None => !json_obj_members(*v).contains_key(key@),
        },
{
    v.get(key)
}

/// Relies on serde_json::Value::is_null.
pub assume_specification[ serde_json::Value::is_null ](v: &serde_json::Value) -> (r: bool)
    ensures
        r == json_projections(*v).0,
;

/// Relies on serde_json::Value::as_str: the string slice of a JSON string,
/// `None` for any other value.
pub assume_specification<'a>[ serde_json::Value::as_str ](v: &'a serde_json::Value) -> (r: Option<
    &'a str,
>)
    ensures
        match r {
            Some(s) => json_projections(*v).1 == Some(s@),
            None => json_projections(*v).1 is None,
        },
;

/// Relies on serde_json::Value::as_i64: the value of a JSON integer that
/// fits an `i64`, `None` for any other value.
pub assume_specification[ serde_json::Value::as_i64 ](v: &serde_json::Value) -> (r: Option<i64>)
    ensures
        match r {
            Some(n) => json_projections(*v).2 == Some(n as int),
            None => json_projections(*v).2 is None,
        },
;

/// Relies on Display for serde_json::Number: a JSON number rendered back
/// as decimal text, a function of the number.
#[verifier::external_body]
fn json_number_text(v: &serde_json::Value) -> (r: Option<String>)
    ensures
        match r {
            Some(t) => json_projections(*v).3 == Some(t@),
            None => json_projections(*v).3 is None,
        },
{
    match v {
        serde_json::Value::Number(n) => Some(n.to_string()),
        _ => None,
    }
}

// ─── Member reading ──────────────────────────────────────

/// The state of one string-valued member of the decision object.
pub enum FieldText {
    /// The member is absent or JSON null.
    Missing,
    /// The member is present with the wrong type.
    Malformed,
    /// The member's text.
    Text(String),
}

/// The state of one integer-valued member of the decision object.
pub enum FieldInt {
    Missing,
    Malformed,
    Int(i64),
}

/// The three-state reading of a string member of an object: `None` for a
/// present member of the wrong type, `Some(None)` for an absent or null
/// member, `Some(Some(text))` for a string member.
pub open spec fn text_member_view(
    m: Map<Seq<char>, (bool, Option<Seq<char>>, Option<int>, Option<Seq<char>>)>,
    key: Seq<char>,
) -> Option<Option<Seq<char>>> {
    if !m.contains_key(key) {
        Some(None)
    } else if m[key].0 {
        Some(None)
    } else {
        match m[key].1 {
            Some(s) => Some(Some(s)),
            None => None,
        }
    }
}

/// The three-state reading of an integer member.
pub open spec fn int_member_view(
    m: Map<Seq<char>, (bool, Option<Seq<char>>, Option<int>, Option<Seq<char>>)>,
    key: Seq<char>,
) -> Option<Option<int>> {
    if !m.contains_key(key) {
        Some(None)
    } else if m[key].0 {
        Some(None)
    } else {
        match m[key].2 {
            Some(n) => Some(Some(n)),
            None => None,
        }
    }
}

/// The three-state reading of a number member, as its decimal text.
pub open spec fn number_member_view(
    m: Map<Seq<char>, (bool, Option<Seq<char>>, Option<int>, Option<Seq<char>>)>,
    key: Seq<char>,
) -> Option<Option<Seq<char>>> {
    if !m.contains_key(key) {
        Some(None)
    } else if m[key].0 {
        Some(None)
    } else {
        match m[key].3 {
            Some(t) => Some(Some(t)),
            None => None,
        }
    }
}

/// How a member state corresponds to its three-state reading.
pub open spec fn text_field_is(f: FieldText, m: Option<Option<Seq<char>>>) -> bool {
    match f {
        FieldText::Malformed => m is None,
        FieldText::Missing => m == Some(None::<Seq<char>>),
        FieldText::Text(s) => m == Some(Some(s@)),
    }
}

pub open spec fn int_field_is(f: FieldInt, m: Option<Option<int>>) -> bool {
    match f {
        FieldInt::Malformed => m is None,
        FieldInt::Missing => m == Some(None::<int>),
        FieldInt::Int(n) => m == Some(Some(n as int)),
    }
}

fn text_field(v: &serde_json::Value, key: &str) -> (r: FieldText)
    ensures
        text_field_is(r, text_member_view(json_obj_members(*v), key@)),
{
    match json_get(v, key) {
        None => FieldText::Missing,
        Some(f) => {
            if f.is_null() {
                FieldText::Missing
            } else {
                match f.as_str() {
                    Some(s) => FieldText::Text(s.to_owned()),
                    None => FieldText::Malformed,
                }
            }
        },
    }
}

fn int_field(v: &serde_json::Value, key: &str) -> (r: FieldInt)
    ensures
        int_field_is(r, int_member_view(json_obj_members(*v), key@)),
{
    match json_get(v, key) {
        None => FieldInt::Missing,
        Some(f) => {
            if f.is_null() {
                FieldInt::Missing
            } else {
                match f.as_i64() {
                    Some(n) => FieldInt::Int(n),
                    None => FieldInt::Malformed,
                }
            }
        },
    }
}

fn number_field(v: &serde_json::Value, key: &str) -> (r: FieldText)
    ensures
        text_field_is(r, number_member_view(json_obj_members(*v), key@)),
{
    match json_get(v, key) {
        None => FieldText::Missing,
        Some(f) => {
            if f.is_null() {
                FieldText::Missing
            } else {
                match json_number_text(f) {
                    Some(t) => FieldText::Text(t),
                    None => FieldText::Malformed,
                }
            }
        },
    }
}

// ─── Verified assembly ───────────────────────────────────

/// The safe fallback decision.
pub open spec fn is_default_hold(d: TradingDecision) -> bool {
    &&& d.action is Hold
    &&& d.symbol is None
    &&& d.confidence == 0
    &&& d.reasoning@ == "Failed to parse OpenClaw response — defaulting to HOLD"@
    &&& d.stop_loss is None
    &&& d.take_profit is None
}

/// The action named by an accepted action text.
pub open spec fn action_of(s: Seq<char>) -> TradingAction {
    if s == "BUY"@ {
        TradingAction::Buy
    } else if s == "SELL"@ {
        TradingAction::Sell
    } else {
        TradingAction::Hold
    }
}

/// Whether a price member is acceptable: absent, or a number whose text
/// parses to a representable tick count.
pub open spec fn price_field_ok(f: FieldText) -> bool {
    match f {
        FieldText::Missing => true,
        FieldText::Malformed => false,
        FieldText::Text(t) => spec_parse_amount(encode_utf8(t@)) matches Some(v) && v
            <= AMOUNT_MAX,
    }
}

/// The tick count an acceptable price member denotes.
pub open spec fn price_field_of(f: FieldText) -> Option<u64> {
    match f {
        FieldText::Text(t) => spec_parse_amount(encode_utf8(t@)),
        _ => None,
    }
}

/// `price_field_ok` over a member reading.
pub open spec fn price_member_ok(m: Option<Option<Seq<char>>>) -> bool {
    match m {
        None => false,
        Some(None) => true,
        Some(Some(t)) => spec_parse_amount(encode_utf8(t)) matches Some(v) && v <= AMOUNT_MAX,
    }
}

/// `price_field_of` over a member reading.
pub open spec fn price_member_of(m: Option<Option<Seq<char>>>) -> Option<u64> {
    match m {
        Some(Some(t)) => spec_parse_amount(encode_utf8(t)),
        _ => None,
    }
}

/// Whether the members read from the document form a decision: a known
/// action, a confidence on the scale, a reasoning text, prices in range,
/// a symbol that is at worst absent — and present whenever the action is a
/// trade (the parser, not the oracle, enforces that invariant).
pub open spec fn fields_accepted(
    action: FieldText,
    symbol: FieldText,
    confidence: FieldInt,
    reasoning: FieldText,
    stop_loss: FieldText,
    take_profit: FieldText,
) -> bool {
    match (action, confidence, reasoning) {
        (FieldText::Text(a), FieldInt::Int(c), FieldText::Text(_)) => {
            &&& (a@ == "BUY"@ || a@ == "SELL"@ || a@ == "HOLD"@)
            &&& 0 <= c <= 100
            &&& !(symbol is Malformed)
            &&& price_field_ok(stop_loss)
            &&& price_field_ok(take_profit)
            &&& (a@ == "BUY"@ || a@ == "SELL"@) ==> symbol is Text
        },
        _ => false,
    }
}

/// `fields_accepted` over the document's member readings.
pub open spec fn members_accepted(
    m: Map<Seq<char>, (bool, Option<Seq<char>>, Option<int>, Option<Seq<char>>)>,
) -> bool {
    match (
        text_member_view(m, "action"@),
        int_member_view(m, "confidence"@),
        text_member_view(m, "reasoning"@),
    ) {
        (Some(Some(a)), Some(Some(c)), Some(Some(_))) => {
            &&& (a == "BUY"@ || a == "SELL"@ || a == "HOLD"@)
            &&& 0 <= c <= 100
            &&& text_member_view(m, "symbol"@) is Some
            &&& price_member_ok(number_member_view(m, "stop_loss"@))
            &&& price_member_ok(number_member_view(m, "take_profit"@))
            &&& (a == "BUY"@ || a == "SELL"@) ==> (text_member_view(m, "symbol"@) matches Some(
                Some(_),
            ))
        },
        _ => false,
    }
}

/// The decision a document's members spell: on accepted members the
/// action, confidence, reasoning, symbol and prices they give; on anything
/// else the HOLD default.
pub open spec fn decision_of_members(
    d: TradingDecision,
    m: Map<Seq<char>, (bool, Option<Seq<char>>, Option<int>, Option<Seq<char>>)>,
) -> bool {
    if members_accepted(m) {
        &&& text_member_view(m, "action"@) matches Some(Some(a)) && d.action == action_of(a)
        &&& int_member_view(m, "confidence"@) matches Some(Some(c)) && d.confidence == c
        &&& text_member_view(m, "reasoning"@) matches Some(Some(rs)) && d.reasoning@ == rs
        &&& (match (d.symbol, text_member_view(m, "symbol"@)) {
            (Some(s), Some(Some(t))) => s@ == t,
            (None, Some(None)) => true,
            _ => false,
        })
        &&& d.stop_loss == price_member_of(number_member_view(m, "stop_loss"@))
        &&& d.take_profit == price_member_of(number_member_view(m, "take_profit"@))
    } else {
        is_default_hold(d)
    }
}

/// The HOLD fallback decision.
fn default_hold() -> (d: TradingDecision)
    ensures
        is_default_hold(d),
        d.wf(),
{
    TradingDecision {
        action: TradingAction::Hold,
        symbol: None,
        confidence: 0,
        reasoning: "Failed to parse OpenClaw response — defaulting to HOLD".to_owned(),
        stop_loss: None,
        take_profit: None,
    }
}

pub fn str_is(s: &String, lit: &str) -> (r: bool)
    ensures
        r == (s@ == lit@),
{
    let other = lit.to_owned();
    s.eq(&other)
}

/// Assemble a decision from the members read out of the document.
/// Accepted members give exactly the decision they spell; anything else
/// gives the HOLD default.
pub fn decision_from_fields(
    action: FieldText,
    symbol: FieldText,
    confidence: FieldInt,
    reasoning: FieldText,
    stop_loss: FieldText,
    take_profit: FieldText,
) -> (d: TradingDecision)
    ensures
        d.wf(),
        fields_accepted(action, symbol, confidence, reasoning, stop_loss, take_profit) ==> {
            &&& action matches FieldText::Text(a) && d.action == action_of(a@)
            &&& confidence matches FieldInt::Int(c) && d.confidence == c
            &&& reasoning matches FieldText::Text(rs) && d.reasoning == rs
            &&& d.symbol == (match symbol {
                FieldText::Text(sym) => Some(sym),
                _ => None,
            })
            &&& d.stop_loss == price_field_of(stop_loss)
            &&& d.take_profit == price_field_of(take_profit)
        },
        !fields_accepted(action, symbol, confidence, reasoning, stop_loss, take_profit)
            ==> is_default_hold(d),
{
    let a = match action {
        FieldText::Text(a) => a,
        _ => {
            return default_hold();
        },
    };
    let act = if str_is(&a, "BUY") {
        TradingAction::Buy
    } else if str_is(&a, "SELL") {
        TradingAction::Sell
    } else if str_is(&a, "HOLD") {
        TradingAction::Hold
    } else {
        return default_hold();
    };
    let c = match confidence {
        FieldInt::Int(c) => c,
        _ => {
            return default_hold();
        },
    };
    if c < 0 || c > 100 {
        return default_hold();
    }
    let rs = match reasoning {
        FieldText::Text(rs) => rs,
        _ => {
            return default_hold();
        },
    };
    let sym: Option<String> = match symbol {
        FieldText::Text(sym) => Some(sym),
        FieldText::Missing => None,
        FieldText::Malformed => {
            return default_hold();
        },
    };
    let sl: Option<u64> = match stop_loss {
        FieldText::Missing => None,
        FieldText::Malformed => {
            return default_hold();
        },
        FieldText::Text(t) => {
            match parse_amount(t.as_str().as_bytes()) {
                Some(v) => {
                    if v > AMOUNT_MAX {
                        return default_hold();
                    }
                    Some(v)
                },
                None => {
                    return default_hold();
                },
            }
        },
    };
    let tp: Option<u64> = match take_profit {
        FieldText::Missing => None,
        FieldText::Malformed => {
            return default_hold();
        },
        FieldText::Text(t) => {
            match parse_amount(t.as_str().as_bytes()) {
                Some(v) => {
                    if v > AMOUNT_MAX {
                        return default_hold();
                    }
                    Some(v)
                },
                None => {
                    return default_hold();
                },
            }
        },
    };
    match act {
        TradingAction::Hold => {},
        _ => {
            if sym.is_none() {
                return default_hold();
            }
        },
    }
    TradingDecision {
        action: act,
        symbol: sym,
        confidence: c as i32,
        reasoning: rs,
        stop_loss: sl,
        take_profit: tp,
    }
}

/// Member states that match a document's readings assemble to exactly the
/// decision the document spells.
proof fn lemma_members_bridge(
    action: FieldText,
    symbol: FieldText,
    confidence: FieldInt,
    reasoning: FieldText,
    stop_loss: FieldText,
    take_profit: FieldText,
    m: Map<Seq<char>, (bool, Option<Seq<char>>, Option<int>, Option<Seq<char>>)>,
    d: TradingDecision,
)
    requires
        text_field_is(action, text_member_view(m, "action"@)),
        text_field_is(symbol, text_member_view(m, "symbol"@)),
        int_field_is(confidence, int_member_view(m, "confidence"@)),
        text_field_is(reasoning, text_member_view(m, "reasoning"@)),
        text_field_is(stop_loss, number_member_view(m, "stop_loss"@)),
        text_field_is(take_profit, number_member_view(m, "take_profit"@)),
        fields_accepted(action, symbol, confidence, reasoning, stop_loss, take_profit) ==> {
            &&& action matches FieldText::Text(a) && d.action == action_of(a@)
            &&& confidence matches FieldInt::Int(c) && d.confidence == c
            &&& reasoning matches FieldText::Text(rs) && d.reasoning == rs
            &&& d.symbol == (match symbol {
                FieldText::Text(sym) => Some(sym),
                _ => None,
            })
            &&& d.stop_loss == price_field_of(stop_loss)
            &&& d.take_profit == price_field_of(take_profit)
        },
        !fields_accepted(action, symbol, confidence, reasoning, stop_loss, take_profit)
            ==> is_default_hold(d),
    ensures
        decision_of_members(d, m),
{
    assert(fields_accepted(action, symbol, confidence, reasoning, stop_loss, take_profit)
        == members_accepted(m));
}

// ─── Entry point ─────────────────────────────────────────

/// The bytes of the document span inside a reply's bytes.
pub open spec fn spec_doc(s: Seq<u8>) -> Seq<u8> {
    let (a, b) = spec_doc_span(s);
    s.subrange(a, b)
}

fn copy_range(s: &[u8], a: usize, b: usize) -> (r: Vec<u8>)
    requires
        a <= b <= s@.len(),
    ensures
        r@ == s@.subrange(a as int, b as int),
{
    let mut v: Vec<u8> = Vec::new();
    let mut i: usize = a;
    while i < b
        invariant
            a <= i <= b <= s@.len(),
            v@ == s@.subrange(a as int, i as int),
        decreases b - i,
    {
        v.push(s[i]);
        proof {
            assert(s@.subrange(a as int, i + 1 as int) =~= s@.subrange(a as int, i as int).push(
                s@[i as int],
            ));
        }
        i = i + 1;
    }
    v
}

/// Parse the oracle's reply into a decision. Never fails, and the result
/// is fixed exactly: a reply whose document is not well-formed JSON yields
/// the HOLD default, and a well-formed document yields the decision its
/// members spell (`decision_of_members`) — the HOLD default again when the
/// members are not an acceptable decision. In every case the decision is
/// well-formed; in particular a trade action always carries a symbol.
pub fn parse_decision(raw_response: &str) -> (d: TradingDecision)
    ensures
        d.wf(),
        !json_parses(spec_doc(encode_utf8(raw_response@))) ==> is_default_hold(d),
        json_parses(spec_doc(encode_utf8(raw_response@))) ==> decision_of_members(
            d,
            json_members_of(spec_doc(encode_utf8(raw_response@))),
        ),
{
    let bytes = raw_response.as_bytes();
    proof {
        lemma_doc_span_range(bytes@);
    }
    let (a, b) = match extract_json(bytes) {
        Some(sp) => sp,
        None => trim_span(bytes, 0, bytes.len()),
    };
    let doc = copy_range(bytes, a, b);
    assert(doc@ == spec_doc(encode_utf8(raw_response@)));
    let v = match json_parse(doc.as_slice()) {
        Some(v) => v,
        None => {
            return default_hold();
        },
    };
    let ghost m = json_members_of(doc@);
    let action = text_field(&v, "action");
    let symbol = text_field(&v, "symbol");
    let confidence = int_field(&v, "confidence");
    let reasoning = text_field(&v, "reasoning");
    let stop_loss = number_field(&v, "stop_loss");
    let take_profit = number_field(&v, "take_profit");
    let ghost fields = (action, symbol, confidence, reasoning, stop_loss, take_profit);
    let d = decision_from_fields(action, symbol, confidence, reasoning, stop_loss, take_profit);
    proof {
        lemma_members_bridge(
            fields.0,
            fields.1,
            fields.2,
            fields.3,
            fields.4,
            fields.5,
            m,
            d,
        );
    }
    d
}

} // verus!
