//! Whole numbers as decimal text, both ways: writing a number out, and reading
//! one leniently, so that text that is no number of the wanted type reads as zero.

use crate::text::to_chars;
use vstd::prelude::*;
use vstd::string::StringExecFns;

verus! {

/// The character that writes the digit `d`.
pub open spec fn digit_char(d: int) -> char {
    if d == 0 {
        '0'
    } else if d == 1 {
        '1'
    } else if d == 2 {
        '2'
    } else if d == 3 {
        '3'
    } else if d == 4 {
        '4'
    } else if d == 5 {
        '5'
    } else if d == 6 {
        '6'
    } else if d == 7 {
        '7'
    } else if d == 8 {
        '8'
    } else {
        '9'
    }
}

/// `n` in decimal, without leading zeros.
pub open spec fn decimal(n: nat) -> Seq<char>
    decreases n,
{
    if n < 10 {
        seq![digit_char(n as int)]
    } else {
        decimal(n / 10).push(digit_char((n % 10) as int))
    }
}

/// `v` in decimal, with a minus sign in front of a negative number.
pub open spec fn signed_decimal(v: int) -> Seq<char> {
    if v < 0 {
        seq!['-'] + decimal((-v) as nat)
    } else {
        decimal(v as nat)
    }
}

/// Whether `c` is one of the ten ASCII digits.
pub open spec fn is_digit(c: char) -> bool {
    48 <= c as u32 <= 57
}

/// The number that the digit `c` stands for.
pub open spec fn digit_value(c: char) -> nat {
    if is_digit(c) {
        (c as u32 - 48) as nat
    } else {
        0
    }
}

/// Whether `s` holds digits only.
pub open spec fn all_digits(s: Seq<char>) -> bool {
    forall|i: int| 0 <= i < s.len() ==> is_digit(#[trigger] s[i])
}

/// The number that the digits of `s` write in decimal; zero for the empty text.
pub open spec fn digits_value(s: Seq<char>) -> nat
    decreases s.len(),
{
    if s.len() == 0 {
        0
    } else {
        digits_value(s.drop_last()) * 10 + digit_value(s.last())
    }
}

/// Whether `s` starts with a sign that a number of the wanted kind may carry:
/// `+` always, `-` for a signed number.
pub open spec fn has_sign(s: Seq<char>, signed: bool) -> bool {
    s.len() > 0 && (s[0] == '+' || (signed && s[0] == '-'))
}

/// Whether `s` starts with the minus sign of a signed number.
pub open spec fn is_negative(s: Seq<char>, signed: bool) -> bool {
    signed && s.len() > 0 && s[0] == '-'
}

/// `s` behind its sign, if it has one.
pub open spec fn unsigned_part(s: Seq<char>, signed: bool) -> Seq<char> {
    if has_sign(s, signed) {
        s.drop_first()
    } else {
        s
    }
}

/// The integer that `s` writes: an optional sign and then one digit or more,
/// with nothing before, between or after. `None` for any other text.
pub open spec fn parsed_integer(s: Seq<char>, signed: bool) -> Option<int> {
    let body = unsigned_part(s, signed);
    if body.len() > 0 && all_digits(body) {
        if is_negative(s, signed) {
            Some(-(digits_value(body) as int))
        } else {
            Some(digits_value(body) as int)
        }
    } else {
        None
    }
}

/// The integer that `s` writes, if it lies between `lo` and `hi`.
pub open spec fn parsed_in_range(s: Seq<char>, signed: bool, lo: int, hi: int) -> Option<int> {
    match parsed_integer(s, signed) {
        Some(v) => if lo <= v <= hi {
            Some(v)
        } else {
            None
        },
        None => None,
    }
}

/// The integer between `lo` and `hi` that `s` writes, and zero where it writes none.
pub open spec fn lenient_integer(s: Seq<char>, signed: bool, lo: int, hi: int) -> int {
    match parsed_in_range(s, signed, lo, hi) {
        Some(v) => v,
        None => 0,
    }
}

/// What `s` reads as for a signed 8-bit field.
pub open spec fn lenient_i8(s: Seq<char>) -> int {
    lenient_integer(s, true, -128, 127)
}

/// What `s` reads as for an unsigned 8-bit field.
pub open spec fn lenient_u8(s: Seq<char>) -> int {
    lenient_integer(s, false, 0, 255)
}

/// What `s` reads as for an unsigned 16-bit field.
pub open spec fn lenient_u16(s: Seq<char>) -> int {
    lenient_integer(s, false, 0, 65535)
}

/// The largest magnitude that a signed 64-bit integer has.
pub const MAGNITUDE_LIMIT: u64 = 9_223_372_036_854_775_808;

/// The digits of a text never write less than the digits of its beginning.
pub proof fn lemma_digits_value_grows(s: Seq<char>, k: int)
    requires
        0 <= k <= s.len(),
    ensures
        digits_value(s.take(k)) <= digits_value(s),
    decreases s.len() - k,
{
    if k == s.len() {
        assert(s.take(k) =~= s);
    } else {
        lemma_digits_value_grows(s.drop_last(), k);
        assert(s.drop_last().take(k) =~= s.take(k));
    }
}

/// Text with a character that is no digit writes no integer.
pub proof fn lemma_not_a_number(s: Seq<char>, signed: bool, at: int)
    requires
        0 <= at < s.len(),
        !is_digit(s[at]),
        at > 0 || !has_sign(s, signed),
    ensures
        parsed_integer(s, signed) is None,
{
    let body = unsigned_part(s, signed);
    if has_sign(s, signed) {
        assert(body[at - 1] == s[at]);
    } else {
        assert(body[at] == s[at]);
    }
}

/// Text that holds a character which is neither a digit nor a sign in front
/// reads as zero, whichever of the three kinds of field it is read for.
pub proof fn text_that_is_no_number_reads_as_zero(s: Seq<char>, at: int)
    requires
        0 <= at < s.len(),
        !is_digit(s[at]),
        at > 0 || (s[0] != '+' && s[0] != '-'),
    ensures
        lenient_i8(s) == 0,
        lenient_u8(s) == 0,
        lenient_u16(s) == 0,
{
    lemma_not_a_number(s, true, at);
    lemma_not_a_number(s, false, at);
}

/// Appends the digit `d` to `out`.
pub fn push_digit(out: &mut String, d: u64)
    requires
        d < 10,
    ensures
        final(out)@ == old(out)@.push(digit_char(d as int)),
{
    let piece: &str = if d == 0 {
        "0"
    } else if d == 1 {
        "1"
    } else if d == 2 {
        "2"
    } else if d == 3 {
        "3"
    } else if d == 4 {
        "4"
    } else if d == 5 {
        "5"
    } else if d == 6 {
        "6"
    } else if d == 7 {
        "7"
    } else if d == 8 {
        "8"
    } else {
        "9"
    };
    proof {
        reveal_strlit("0");
        reveal_strlit("1");
        reveal_strlit("2");
        reveal_strlit("3");
        reveal_strlit("4");
        reveal_strlit("5");
        reveal_strlit("6");
        reveal_strlit("7");
        reveal_strlit("8");
        reveal_strlit("9");
        assert(piece@ =~= seq![digit_char(d as int)]);
        assert(out@ + piece@ =~= out@.push(digit_char(d as int)));
    }
    out.append(piece);
}

/// Appends `n` in decimal to `out`.
pub fn push_decimal(out: &mut String, n: u64)
    ensures
        final(out)@ == old(out)@ + decimal(n as nat),
    decreases n,
{
    if n >= 10 {
        push_decimal(out, n / 10);
        push_digit(out, n % 10);
        proof {
            assert(old(out)@ + decimal((n / 10) as nat).push(digit_char((n % 10) as int)) =~= (
            old(out)@ + decimal((n / 10) as nat)).push(digit_char((n % 10) as int)));
        }
    } else {
        push_digit(out, n);
        proof {
            assert(old(out)@ + seq![digit_char(n as int)] =~= old(out)@.push(digit_char(n as int)));
        }
    }
}

/// Appends `v` in decimal to `out`, with a minus sign in front of a negative number.
pub fn push_signed_decimal(out: &mut String, v: i64)
    ensures
        final(out)@ == old(out)@ + signed_decimal(v as int),
{
    if v < 0 {
        let magnitude: u64 = (-(v + 1)) as u64 + 1;
        out.append("-");
        push_decimal(out, magnitude);
        proof {
            reveal_strlit("-");
            assert(old(out)@ + "-"@ + decimal(magnitude as nat) =~= old(out)@ + (seq!['-']
                + decimal(magnitude as nat)));
        }
    } else {
        push_decimal(out, v as u64);
    }
}

/// `v` in decimal, with a minus sign in front of a negative number.
pub fn signed_decimal_text(v: i64) -> (r: String)
    ensures
        r@ == signed_decimal(v as int),
{
    let mut out = String::new();
    push_signed_decimal(&mut out, v);
    proof {
        assert(Seq::<char>::empty() + signed_decimal(v as int) =~= signed_decimal(v as int));
    }
    out
}

/// Reads `s` as an integer between `lo` and `hi`: an optional `+`, or `-` where
/// `signed` is set, and then digits only. `None` where `s` is anything else, or
/// writes a number outside the range.
pub fn parse_integer(s: &str, signed: bool, lo: i64, hi: i64) -> (r: Option<i64>)
    ensures
        match r {
            Some(v) => parsed_in_range(s@, signed, lo as int, hi as int) == Some(v as int),
            None => parsed_in_range(s@, signed, lo as int, hi as int) is None,
        },
{
    let chars = to_chars(s);
    let len: usize = chars.len();
    let mut start: usize = 0;
    let mut negative = false;
    if len > 0 {
        if chars[0] == '+' {
            start = 1;
        } else if signed && chars[0] == '-' {
            start = 1;
            negative = true;
        }
    }
    if start == len {
        return None;
    }
    let ghost body = unsigned_part(s@, signed);
    let mut magnitude: u64 = 0;
    let mut at: usize = start;
    proof {
        assert(body =~= s@.subrange(start as int, len as int));
        assert(body.take(0) =~= Seq::<char>::empty());
    }
    while at < len
        invariant
            start <= at <= len,
            len == chars.len(),
            chars@ == s@,
            body == s@.subrange(start as int, len as int),
            body == unsigned_part(s@, signed),
            start == 1 <==> has_sign(s@, signed),
            start <= 1,
            negative == is_negative(s@, signed),
            all_digits(body.take(at - start)),
            magnitude == digits_value(body.take(at - start)),
            magnitude <= MAGNITUDE_LIMIT,
        decreases len - at,
    {
        let code: u32 = chars[at] as u32;
        if code < 48 || code > 57 {
            proof {
                lemma_not_a_number(s@, signed, at as int);
            }
            return None;
        }
        let digit: u64 = (code - 48) as u64;
        proof {
            let longer = body.take(at - start + 1);
            assert(longer.drop_last() =~= body.take(at - start));
            assert(longer.last() == s@[at as int]);
            assert(digits_value(longer) == magnitude * 10 + digit);
            assert forall|i: int| 0 <= i < longer.len() implies is_digit(#[trigger] longer[i]) by {
                if i < at - start {
                    assert(body.take(at - start)[i] == longer[i]);
                }
            }
        }
        if magnitude > (MAGNITUDE_LIMIT - digit) / 10 {
            proof {
                lemma_digits_value_grows(body, at - start + 1);
            }
            return None;
        }
        magnitude = magnitude * 10 + digit;
        at = at + 1;
    }
    proof {
        assert(body.take(len - start) =~= body);
    }
    let value: i64 = if negative {
        if magnitude == MAGNITUDE_LIMIT {
            i64::MIN
        } else {
            -(magnitude as i64)
        }
    } else {
        if magnitude == MAGNITUDE_LIMIT {
            return None;
        }
        magnitude as i64
    };
    if lo <= value && value <= hi {
        Some(value)
    } else {
        None
    }
}

/// Reads `s` as a signed 8-bit number; zero where it is none.
pub fn parse_i8_or_zero(s: &str) -> (r: i8)
    ensures
        r == lenient_i8(s@),
{
    match parse_integer(s, true, -128, 127) {
        Some(v) => v as i8,
        None => 0,
    }
}

/// Reads `s` as an unsigned 8-bit number; zero where it is none.
pub fn parse_u8_or_zero(s: &str) -> (r: u8)
    ensures
        r == lenient_u8(s@),
{
    match parse_integer(s, false, 0, 255) {
        Some(v) => v as u8,
        None => 0,
    }
}

/// Reads `s` as an unsigned 16-bit number; zero where it is none.
pub fn parse_u16_or_zero(s: &str) -> (r: u16)
    ensures
        r == lenient_u16(s@),
{
    match parse_integer(s, false, 0, 65535) {
        Some(v) => v as u16,
        None => 0,
    }
}

} // verus!
