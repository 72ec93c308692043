//! Signing exchange requests: HMAC-SHA-256 over the query string, hex
//! encoded, and the exact query texts for the signed endpoints.

use vstd::prelude::*;
use vstd::utf8::encode_utf8;
use hmac::Mac;
use crate::text::{spec_digits, spec_fixed, push_digits, push_fixed};

verus! {

/// The lowercase hex digit character for a value under sixteen.
pub open spec fn hex_char(d: int) -> char {
    if d == 0 {
        '0'
    } else if d == 1 {
        '1'
    } else if d == 2 {
        '2'
    } else if d == 3 {
        '3'
    } else if d == 4 {
        '4'
    } else if d == 5 {
        '5'
    } else if d == 6 {
        '6'
    } else if d == 7 {
        '7'
    } else if d == 8 {
        '8'
    } else if d == 9 {
        '9'
    } else if d == 10 {
        'a'
    } else if d == 11 {
        'b'
    } else if d == 12 {
        'c'
    } else if d == 13 {
        'd'
    } else if d == 14 {
        'e'
    } else {
        'f'
    }
}

/// Lowercase hex text of a byte sequence: two digits per byte, high nibble
/// first.
pub open spec fn hex_of(bytes: Seq<u8>) -> Seq<char> {
    Seq::new(
        bytes.len() * 2,
        |i: int|
            if i % 2 == 0 {
                hex_char((bytes[i / 2] / 16) as int)
            } else {
                hex_char((bytes[i / 2] % 16) as int)
            },
    )
}

/// The HMAC-SHA-256 tag of a message under a key: a function of the two
/// alone, the same in every process and on every machine.
pub uninterp spec fn hmac_sha256_of(key: Seq<u8>, msg: Seq<u8>) -> Seq<u8>;

/// Relies on the hmac crate's `Hmac<Sha256>` (with sha2): initialize with
/// the key — a key of any length is accepted, long keys are hashed down —
/// feed the message, and take the 32-byte tag.
#[verifier::external_body]
fn hmac_sha256(key: &[u8], msg: &[u8]) -> (r: Vec<u8>)
    ensures
        r@ == hmac_sha256_of(key@, msg@),
        r@.len() == 32,
{
    let mut mac = <hmac::Hmac<sha2::Sha256> as Mac>::new_from_slice(key).unwrap();
    mac.update(msg);
    mac.finalize().into_bytes().to_vec()
}

/// Relies on hex::encode: each byte becomes two lowercase hex digits, high
/// nibble first.
#[verifier::external_body]
fn to_hex(data: &[u8]) -> (r: String)
    ensures
        r@ == hex_of(data@),
{
    hex::encode(data)
}

/// Sign a query string for the exchange API: the lowercase hex text of the
/// query's HMAC-SHA-256 tag under the secret key.
pub fn sign_query(secret_key: &str, query: &str) -> (r: String)
    ensures
        r@ == hex_of(hmac_sha256_of(encode_utf8(secret_key@), encode_utf8(query@))),
        r@.len() == 64,
{
    let tag = hmac_sha256(secret_key.as_bytes(), query.as_bytes());
    to_hex(tag.as_slice())
}

/// The signed query for an account read.
pub open spec fn spec_account_query(ts: nat) -> Seq<char> {
    "timestamp="@ + spec_digits(ts)
}

/// The query text of an account read at a timestamp.
pub fn account_query(timestamp: u64) -> (r: String)
    ensures
        r@ == spec_account_query(timestamp as nat),
{
    let mut s = String::new();
    s.append("timestamp=");
    push_digits(&mut s, timestamp as u128);
    proof {
        assert(Seq::<char>::empty() + "timestamp="@ + spec_digits(timestamp as nat) =~= "timestamp="@
            + spec_digits(timestamp as nat));
    }
    s
}

/// The signed query for a market buy denominated in quote currency, the
/// amount written with two decimal places.
pub open spec fn spec_buy_query(symbol: Seq<char>, amount: nat, ts: nat) -> Seq<char> {
    "symbol="@ + symbol + "&side=BUY&type=MARKET&quoteOrderQty="@ + spec_fixed(amount, 2)
        + "&timestamp="@ + spec_digits(ts)
}

/// The query text of a market buy.
pub fn buy_order_query(symbol: &str, usdc_amount: u64, timestamp: u64) -> (r: String)
    ensures
        r@ == spec_buy_query(symbol@, usdc_amount as nat, timestamp as nat),
{
    let mut s = String::new();
    s.append("symbol=");
    s.append(symbol);
    s.append("&side=BUY&type=MARKET&quoteOrderQty=");
    push_fixed(&mut s, usdc_amount as u128, 2);
    s.append("&timestamp=");
    push_digits(&mut s, timestamp as u128);
    proof {
        assert(s@ =~= spec_buy_query(symbol@, usdc_amount as nat, timestamp as nat));
    }
    s
}

/// The signed query for a market sell denominated in asset quantity, the
/// quantity written with eight decimal places.
pub open spec fn spec_sell_query(symbol: Seq<char>, quantity: nat, ts: nat) -> Seq<char> {
    "symbol="@ + symbol + "&side=SELL&type=MARKET&quantity="@ + spec_fixed(quantity, 8)
        + "&timestamp="@ + spec_digits(ts)
}

/// The query text of a market sell.
pub fn sell_order_query(symbol: &str, quantity: u64, timestamp: u64) -> (r: String)
    ensures
        r@ == spec_sell_query(symbol@, quantity as nat, timestamp as nat),
{
    let mut s = String::new();
    s.append("symbol=");
    s.append(symbol);
    s.append("&side=SELL&type=MARKET&quantity=");
    push_fixed(&mut s, quantity as u128, 8);
    s.append("&timestamp=");
    push_digits(&mut s, timestamp as u128);
    proof {
        assert(s@ =~= spec_sell_query(symbol@, quantity as nat, timestamp as nat));
    }
    s
}

} // verus!
