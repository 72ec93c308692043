//! Decimal text: parsing exchange decimal strings into fixed-point ticks.

use vstd::prelude::*;
use crate::money::UNIT;

verus! {

pub const BYTE_DOT: u8 = 46;
pub const BYTE_ZERO: u8 = 48;
pub const BYTE_NINE: u8 = 57;

/// Decimal places carried by the fixed-point representation.
pub const FRAC_DIGITS: u64 = 8;

pub open spec fn is_digit_byte(b: u8) -> bool {
    BYTE_ZERO <= b <= BYTE_NINE
}

pub open spec fn all_digit_bytes(s: Seq<u8>) -> bool {
    forall|i: int| 0 <= i < s.len() ==> is_digit_byte(#[trigger] s[i])
}

/// Numeric value of a sequence of decimal digit bytes.
pub open spec fn digits_val(s: Seq<u8>) -> nat
    decreases s.len(),
{
    if s.len() == 0 {
        0
    } else {
        digits_val(s.drop_last()) * 10 + (s.last() - BYTE_ZERO) as nat
    }
}

/// Ten to the `n`.
pub open spec fn pow10(n: nat) -> nat
    decreases n,
{
    if n == 0 {
        1
    } else {
        10 * pow10((n - 1) as nat)
    }
}

/// Index of the first occurrence of `b` in `s`; `s.len()` when there is none.
pub open spec fn find_byte(s: Seq<u8>, b: u8) -> int {
    find_byte_from(s, b, 0)
}

/// Index of the first occurrence of `b` in `s` at or after `from`;
/// `s.len()` when there is none.
pub open spec fn find_byte_from(s: Seq<u8>, b: u8, from: int) -> int
    decreases s.len() - from,
{
    if from < 0 {
        find_byte_from(s, b, 0)
    } else if from >= s.len() {
        s.len() as int
    } else if s[from] == b {
        from
    } else {
        find_byte_from(s, b, from + 1)
    }
}

pub proof fn lemma_find_byte_props(s: Seq<u8>, b: u8, from: int)
    requires
        0 <= from <= s.len(),
    ensures
        from <= find_byte_from(s, b, from) <= s.len(),
        find_byte_from(s, b, from) < s.len() ==> s[find_byte_from(s, b, from)] == b,
        forall|j: int| from <= j < find_byte_from(s, b, from) ==> s[j] != b,
        find_byte_from(s, b, from) == s.len() ==> forall|j: int|
            from <= j < s.len() ==> s[j] != b,
    decreases s.len() - from,
{
    if from < s.len() && s[from] != b {
        lemma_find_byte_props(s, b, from + 1);
    }
}

/// The tick count a decimal text denotes: an unsigned integer part, and
/// optionally a dot followed by one to eight fraction digits. The value is
/// the integer part in whole units plus the fraction scaled to ticks.
/// Texts of any other shape denote nothing.
pub open spec fn spec_amount_val(s: Seq<u8>) -> Option<nat> {
    let k = find_byte(s, BYTE_DOT);
    if k == s.len() {
        if s.len() > 0 && all_digit_bytes(s) {
            Some(digits_val(s) * (UNIT as nat))
        } else {
            None
        }
    } else {
        let int_part = s.subrange(0, k);
        let frac_part = s.subrange(k + 1, s.len() as int);
        if int_part.len() > 0 && all_digit_bytes(int_part) && 1 <= frac_part.len()
            <= FRAC_DIGITS as int && all_digit_bytes(frac_part) {
            Some(
                digits_val(int_part) * (UNIT as nat) + digits_val(frac_part) * pow10(
                    (FRAC_DIGITS - frac_part.len()) as nat,
                ),
            )
        } else {
            None
        }
    }
}

/// A decimal text parses exactly when it has the accepted shape and its
/// value fits in a `u64` tick count.
pub open spec fn spec_parse_amount(s: Seq<u8>) -> Option<u64> {
    match spec_amount_val(s) {
        Some(v) => if v <= u64::MAX {
            Some(v as u64)
        } else {
            None
        },
        None => None,
    }
}

proof fn lemma_digits_val_snoc(s: Seq<u8>, b: u8)
    requires
        is_digit_byte(b),
    ensures
        digits_val(s.push(b)) == digits_val(s) * 10 + (b - BYTE_ZERO),
{
    assert(s.push(b).drop_last() =~= s);
    assert(s.push(b).last() == b);
}

/// A prefix of a digit text never exceeds the whole text's value.
proof fn lemma_digits_val_prefix(s: Seq<u8>, i: int)
    requires
        0 <= i <= s.len(),
        all_digit_bytes(s),
    ensures
        digits_val(s.subrange(0, i)) <= digits_val(s),
    decreases s.len() - i,
{
    if i == s.len() {
        assert(s.subrange(0, i) =~= s);
    } else {
        lemma_digits_val_prefix(s, i + 1);
        let p = s.subrange(0, i);
        assert(s.subrange(0, i + 1) =~= p.push(s[i]));
        lemma_digits_val_snoc(p, s[i]);
        assert(is_digit_byte(s[i]));
        assert(digits_val(p) <= digits_val(p) * 10 + (s[i] - BYTE_ZERO)) by (nonlinear_arith)
            requires
                is_digit_byte(s[i]),
                BYTE_ZERO == 48u8,
        ;
    }
}

proof fn lemma_digits_val_bound(s: Seq<u8>)
    requires
        all_digit_bytes(s),
    ensures
        digits_val(s) < pow10(s.len()),
    decreases s.len(),
{
    if s.len() > 0 {
        assert(forall|i: int| 0 <= i < s.len() - 1 ==> #[trigger] s.drop_last()[i] == s[i]);
        lemma_digits_val_bound(s.drop_last());
        assert(digits_val(s.drop_last()) * 10 + (s.last() - BYTE_ZERO) < pow10(
            s.drop_last().len(),
        ) * 10) by (nonlinear_arith)
            requires
                digits_val(s.drop_last()) < pow10(s.drop_last().len()),
                is_digit_byte(s.last()),
                BYTE_ZERO == 48u8,
                BYTE_NINE == 57u8,
        ;
        assert(pow10(s.len()) == 10 * pow10(s.drop_last().len()));
    }
}

proof fn lemma_pow10_pos(n: nat)
    ensures
        pow10(n) >= 1,
    decreases n,
{
    if n > 0 {
        lemma_pow10_pos((n - 1) as nat);
    }
}

proof fn lemma_pow10_add(a: nat, b: nat)
    ensures
        pow10(a) * pow10(b) == pow10(a + b),
        pow10(b) >= 1,
    decreases a,
{
    if a == 0 {
        lemma_pow10_pos(b);
        assert(pow10(a) == 1);
        assert(pow10(a) * pow10(b) == pow10(b)) by (nonlinear_arith)
            requires
                pow10(a) == 1,
        ;
        assert(pow10(a + b) == pow10(b));
    } else {
        lemma_pow10_add((a - 1) as nat, b);
        assert(pow10(a) == 10 * pow10((a - 1) as nat));
        assert(pow10(a + b) == 10 * pow10((a + b - 1) as nat));
        assert(pow10((a - 1) as nat) * pow10(b) == pow10((a - 1 + b) as nat));
        assert(pow10(a) * pow10(b) == 10 * (pow10((a - 1) as nat) * pow10(b)))
            by (nonlinear_arith)
            requires
                pow10(a) == 10 * pow10((a - 1) as nat),
        ;
        assert(10 * (pow10((a - 1) as nat) * pow10(b)) == 10 * pow10((a - 1 + b) as nat));
        assert(pow10((a - 1 + b) as nat) == pow10((a + b - 1) as nat));
        assert(pow10(a) * pow10(b) == pow10(a + b));
    }
}

/// A fraction of at most eight digits, scaled to ticks, stays under one unit.
proof fn lemma_frac_scaled_bound(f: Seq<u8>)
    requires
        all_digit_bytes(f),
        1 <= f.len() <= FRAC_DIGITS as int,
    ensures
        digits_val(f) * pow10((FRAC_DIGITS - f.len()) as nat) < UNIT as nat,
{
    lemma_digits_val_bound(f);
    lemma_pow10_add(f.len(), (FRAC_DIGITS - f.len()) as nat);
    assert(pow10(FRAC_DIGITS as nat) == 100_000_000) by {
        reveal_with_fuel(pow10, 9);
    }
    assert(digits_val(f) * pow10((FRAC_DIGITS - f.len()) as nat) < pow10(f.len()) * pow10(
        (FRAC_DIGITS - f.len()) as nat,
    )) by (nonlinear_arith)
        requires
            digits_val(f) < pow10(f.len()),
            pow10((FRAC_DIGITS - f.len()) as nat) >= 1,
    ;
}

/// Parse the decimal digits `s[lo..hi]` left to right; `None` on overflow.
fn parse_digits(s: &[u8], lo: usize, hi: usize) -> (r: Option<u64>)
    requires
        lo <= hi <= s@.len(),
        all_digit_bytes(s@.subrange(lo as int, hi as int)),
    ensures
        ({
            let d = s@.subrange(lo as int, hi as int);
            match r {
                Some(v) => v == digits_val(d),
                None => digits_val(d) > u64::MAX,
            }
        }),
{
    let ghost d = s@.subrange(lo as int, hi as int);
    let mut v: u64 = 0;
    let mut i: usize = lo;
    while i < hi
        invariant
            lo <= i <= hi <= s@.len(),
            d == s@.subrange(lo as int, hi as int),
            all_digit_bytes(d),
            v == digits_val(s@.subrange(lo as int, i as int)),
        decreases hi - i,
    {
        let b = s[i];
        assert(d[i - lo] == b);
        assert(is_digit_byte(b));
        let digit: u64 = (b - 48) as u64;
        proof {
            let p = s@.subrange(lo as int, i as int);
            assert(s@.subrange(lo as int, i + 1 as int) =~= p.push(b));
            lemma_digits_val_snoc(p, b);
        }
        if v > (u64::MAX - digit) / 10 {
            proof {
                let q = s@.subrange(lo as int, i + 1 as int);
                assert(digits_val(q) == v * 10 + digit);
                assert(v * 10 + digit > u64::MAX) by (nonlinear_arith)
                    requires
                        v > (u64::MAX - digit) / 10,
                        digit <= 9,
                ;
                lemma_digits_val_prefix(d, i + 1 - lo);
                assert(d.subrange(0, i + 1 - lo) =~= q);
            }
            return None;
        }
        proof {
            assert(v * 10 + digit <= u64::MAX) by (nonlinear_arith)
                requires
                    v <= (u64::MAX - digit) / 10,
                    digit <= 9,
            ;
        }
        v = v * 10 + digit;
        i = i + 1;
    }
    assert(s@.subrange(lo as int, i as int) =~= d);
    Some(v)
}

/// Parse a decimal amount text into ticks.
/// Returns `Some` exactly on texts of the accepted shape whose value fits,
/// and then the exact tick count they denote.
pub fn parse_amount(s: &[u8]) -> (r: Option<u64>)
    ensures
        r == spec_parse_amount(s@),
{
    let n = s.len();
    let mut k: usize = n;
    let mut i: usize = 0;
    let mut digits_ok: bool = true;
    while i < n
        invariant
            0 <= i <= n,
            n == s@.len(),
            k <= n,
            k == n ==> forall|j: int| 0 <= j < i ==> s@[j] != BYTE_DOT,
            k < n ==> k < i && s@[k as int] == BYTE_DOT && forall|j: int|
                0 <= j < k ==> s@[j] != BYTE_DOT,
            digits_ok <==> (forall|j: int|
                0 <= j < i && j != k ==> is_digit_byte(#[trigger] s@[j])),
        decreases n - i,
    {
        let b = s[i];
        if b == BYTE_DOT {
            if k == n {
                k = i;
            } else {
                digits_ok = false;
            }
        } else if !(b >= BYTE_ZERO && b <= BYTE_NINE) {
            digits_ok = false;
        }
        i = i + 1;
    }
    proof {
        lemma_find_byte_props(s@, BYTE_DOT, 0);
        if k == n {
            assert(find_byte(s@, BYTE_DOT) == n);
        } else {
            assert(find_byte(s@, BYTE_DOT) == k);
        }
    }

    if k == n {
        // no dot: a plain integer text
        if n == 0 || !digits_ok {
            return None;
        }
        assert(s@.subrange(0, n as int) =~= s@);
        match parse_digits(s, 0, n) {
            Some(v) => {
                if v > u64::MAX / UNIT {
                    proof {
                        assert((v as nat) * (UNIT as nat) > u64::MAX) by (nonlinear_arith)
                            requires
                                v > u64::MAX / 100_000_000u64,
                                UNIT == 100_000_000u64,
                        ;
                    }
                    None
                } else {
                    proof {
                        assert((v as nat) * (UNIT as nat) <= u64::MAX) by (nonlinear_arith)
                            requires
                                v <= u64::MAX / 100_000_000u64,
                                UNIT == 100_000_000u64,
                        ;
                    }
                    Some(v * UNIT)
                }
            },
            None => {
                proof {
                    let w = digits_val(s@);
                    assert(w * (UNIT as nat) >= w) by (nonlinear_arith)
                        requires
                            UNIT == 100_000_000u64,
                    ;
                }
                None
            },
        }
    } else {
        // dotted form
        let frac_len = n - k - 1;
        if k == 0 || frac_len == 0 || frac_len > 8 || !digits_ok {
            proof {
                if !digits_ok {
                    let j = choose|j: int| 0 <= j < n && j != k && !is_digit_byte(s@[j]);
                    if j < k {
                        assert(s@.subrange(0, k as int)[j] == s@[j]);
                    } else {
                        assert(s@.subrange(k + 1, n as int)[j - k - 1] == s@[j]);
                    }
                }
            }
            return None;
        }
        let ghost ip = s@.subrange(0, k as int);
        let ghost fp = s@.subrange(k + 1, n as int);
        proof {
            assert(forall|j: int| 0 <= j < k ==> #[trigger] ip[j] == s@[j]);
            assert(forall|j: int| 0 <= j < n - k - 1 ==> #[trigger] fp[j] == s@[j + k + 1]);
            assert(all_digit_bytes(ip));
            assert(all_digit_bytes(fp));
        }
        let iv = match parse_digits(s, 0, k) {
            Some(v) => v,
            None => {
                proof {
                    let w = digits_val(ip);
                    assert(w * (UNIT as nat) >= w) by (nonlinear_arith)
                        requires
                            UNIT == 100_000_000u64,
                    ;
                }
                return None;
            },
        };
        let fv = match parse_digits(s, k + 1, n) {
            Some(v) => v,
            None => {
                proof {
                    lemma_digits_val_bound(fp);
                    assert(pow10(8) == 100_000_000) by {
                        reveal_with_fuel(pow10, 9);
                    }
                    if fp.len() < 8 {
                        lemma_pow10_add(fp.len(), (8 - fp.len()) as nat);
                        assert(pow10(fp.len()) * pow10((8 - fp.len()) as nat) == pow10(8));
                        assert(pow10(fp.len()) <= pow10(8)) by (nonlinear_arith)
                            requires
                                pow10(fp.len()) * pow10((8 - fp.len()) as nat) == pow10(8),
                                pow10((8 - fp.len()) as nat) >= 1,
                                pow10(fp.len()) >= 1,
                        ;
                    }
                }
                return None;
            },
        };
        let scale = pow10_u64(8 - (frac_len as u64));
        proof {
            lemma_frac_scaled_bound(fp);
        }
        let frac_ticks: u64 = fv * scale;
        if iv > u64::MAX / UNIT {
            proof {
                assert((iv as nat) * (UNIT as nat) > u64::MAX) by (nonlinear_arith)
                    requires
                        iv > u64::MAX / 100_000_000u64,
                        UNIT == 100_000_000u64,
                ;
            }
            return None;
        }
        proof {
            assert((iv as nat) * (UNIT as nat) <= u64::MAX) by (nonlinear_arith)
                requires
                    iv <= u64::MAX / 100_000_000u64,
                    UNIT == 100_000_000u64,
            ;
        }
        let whole: u64 = iv * UNIT;
        if whole > u64::MAX - frac_ticks {
            return None;
        }
        Some(whole + frac_ticks)
    }
}

/// Ten to the `n`, executable.
pub fn pow10_u64(n: u64) -> (r: u64)
    requires
        n <= 19,
    ensures
        r == pow10(n as nat),
    decreases n,
{
    proof {
        lemma_pow10_le19(n as nat);
    }
    if n == 0 {
        1
    } else {
        let rest = pow10_u64(n - 1);
        proof {
            lemma_pow10_le19((n - 1) as nat);
        }
        10 * rest
    }
}

proof fn lemma_pow10_le19(n: nat)
    requires
        n <= 19,
    ensures
        pow10(n) <= pow10(19) < u64::MAX,
    decreases 19 - n,
{
    assert(pow10(19) == 10_000_000_000_000_000_000) by {
        reveal_with_fuel(pow10, 20);
    }
    if n < 19 {
        lemma_pow10_le19(n + 1);
        assert(pow10(n + 1) == 10 * pow10(n));
        assert(pow10(n) <= 10 * pow10(n)) by (nonlinear_arith)
            requires
                pow10(n) >= 0,
        ;
    }
}


/// The character for one decimal digit.
pub open spec fn digit_char(d: nat) -> char {
    if d == 0 {
        '0'
    } else if d == 1 {
        '1'
    } else if d == 2 {
        '2'
    } else if d == 3 {
        '3'
    } else if d == 4 {
        '4'
    } else if d == 5 {
        '5'
    } else if d == 6 {
        '6'
    } else if d == 7 {
        '7'
    } else if d == 8 {
        '8'
    } else {
        '9'
    }
}

/// Decimal rendering of `n`, most significant digit first.
pub open spec fn spec_digits(n: nat) -> Seq<char>
    decreases n,
{
    if n < 10 {
        seq![digit_char(n)]
    } else {
        spec_digits(n / 10).push(digit_char(n % 10))
    }
}

/// The last `width` decimal digits of `n`, zero padded.
pub open spec fn spec_padded(n: nat, width: nat) -> Seq<char>
    decreases width,
{
    if width == 0 {
        Seq::empty()
    } else {
        spec_padded(n / 10, (width - 1) as nat).push(digit_char(n % 10))
    }
}

/// A tick count rendered as a decimal with `decimals` places after the dot.
pub open spec fn spec_fixed(v: nat, decimals: nat) -> Seq<char> {
    spec_digits(v / (UNIT as nat)) + seq!['.'] + spec_padded(
        (v % (UNIT as nat)) / pow10((FRAC_DIGITS - decimals) as nat),
        decimals,
    )
}

/// A signed tick count as sign and magnitude.
pub open spec fn spec_signed_fixed(neg: bool, mag: nat, decimals: nat) -> Seq<char> {
    if neg {
        seq!['-'] + spec_fixed(mag, decimals)
    } else {
        spec_fixed(mag, decimals)
    }
}

fn digit_str(d: u128) -> (r: &'static str)
    requires
        d < 10,
    ensures
        r@ == seq![digit_char(d as nat)],
{
    proof {
        reveal_strlit("0");
        reveal_strlit("1");
        reveal_strlit("2");
        reveal_strlit("3");
        reveal_strlit("4");
        reveal_strlit("5");
        reveal_strlit("6");
        reveal_strlit("7");
        reveal_strlit("8");
        reveal_strlit("9");
    }
    if d == 0 {
        "0"
    } else if d == 1 {
        "1"
    } else if d == 2 {
        "2"
    } else if d == 3 {
        "3"
    } else if d == 4 {
        "4"
    } else if d == 5 {
        "5"
    } else if d == 6 {
        "6"
    } else if d == 7 {
        "7"
    } else if d == 8 {
        "8"
    } else {
        "9"
    }
}

/// Append the decimal rendering of `n`.
pub fn push_digits(s: &mut String, n: u128)
    ensures
        final(s)@ == old(s)@ + spec_digits(n as nat),
    decreases n,
{
    if n >= 10 {
        push_digits(s, n / 10);
    }
    let d = digit_str(n % 10);
    s.append(d);
    proof {
        if n >= 10 {
            assert(spec_digits(n as nat) =~= spec_digits((n as nat) / 10) + seq![
                digit_char((n as nat) % 10),
            ]);
        } else {
            assert((n as nat) % 10 == n as nat);
        }
    }
}

/// Append the last `width` digits of `n`, zero padded.
pub fn push_padded(s: &mut String, n: u128, width: u64)
    ensures
        final(s)@ == old(s)@ + spec_padded(n as nat, width as nat),
    decreases width,
{
    if width > 0 {
        push_padded(s, n / 10, width - 1);
        let d = digit_str(n % 10);
        s.append(d);
        proof {
            assert(spec_padded(n as nat, width as nat) =~= spec_padded(
                (n as nat) / 10,
                (width - 1) as nat,
            ) + seq![digit_char((n as nat) % 10)]);
        }
    } else {
        proof {
            assert(old(s)@ + spec_padded(n as nat, 0) =~= old(s)@);
        }
    }
}

/// Append a tick count as a decimal with `decimals` places after the dot.
pub fn push_fixed(s: &mut String, v: u128, decimals: u64)
    requires
        1 <= decimals <= FRAC_DIGITS,
    ensures
        final(s)@ == old(s)@ + spec_fixed(v as nat, decimals as nat),
{
    proof {
        reveal_strlit(".");
    }
    push_digits(s, v / (UNIT as u128));
    s.append(".");
    let scale = pow10_u64(8 - decimals);
    proof {
        lemma_pow10_le19((8 - decimals) as nat);
        lemma_pow10_pos((8 - decimals) as nat);
    }
    push_padded(s, (v % (UNIT as u128)) / (scale as u128), decimals);
    proof {
        assert(old(s)@ + spec_digits((v as nat) / (UNIT as nat)) + "."@ + spec_padded(
            ((v as nat) % (UNIT as nat)) / pow10((FRAC_DIGITS - decimals) as nat),
            decimals as nat,
        ) =~= old(s)@ + spec_fixed(v as nat, decimals as nat));
    }
}

/// A tick count as decimal text with `decimals` places after the dot.
pub fn format_fixed(v: u64, decimals: u64) -> (r: String)
    requires
        1 <= decimals <= FRAC_DIGITS,
    ensures
        r@ == spec_fixed(v as nat, decimals as nat),
{
    let mut s = String::new();
    push_fixed(&mut s, v as u128, decimals);
    proof {
        assert(Seq::<char>::empty() + spec_fixed(v as nat, decimals as nat) =~= spec_fixed(
            v as nat,
            decimals as nat,
        ));
    }
    s
}

/// The decimal rendering of `n`.
pub fn format_u64(n: u64) -> (r: String)
    ensures
        r@ == spec_digits(n as nat),
{
    let mut s = String::new();
    push_digits(&mut s, n as u128);
    proof {
        assert(Seq::<char>::empty() + spec_digits(n as nat) =~= spec_digits(n as nat));
    }
    s
}


/// A plain unsigned integer text: nonempty digits whose value fits `u64`.
pub open spec fn spec_parse_integer(s: Seq<u8>) -> Option<u64> {
    if s.len() > 0 && all_digit_bytes(s) && digits_val(s) <= u64::MAX {
        Some(digits_val(s) as u64)
    } else {
        None
    }
}

/// Parse a plain unsigned integer text.
pub fn parse_integer(s: &[u8]) -> (r: Option<u64>)
    ensures
        r == spec_parse_integer(s@),
{
    let n = s.len();
    if n == 0 {
        return None;
    }
    let mut i: usize = 0;
    while i < n
        invariant
            0 <= i <= n == s@.len(),
            forall|j: int| 0 <= j < i ==> is_digit_byte(#[trigger] s@[j]),
        decreases n - i,
    {
        let b = s[i];
        if !(b >= BYTE_ZERO && b <= BYTE_NINE) {
            return None;
        }
        i = i + 1;
    }
    assert(s@.subrange(0, n as int) =~= s@);
    parse_digits(s, 0, n)
}

} // verus!
