//! Decimal integer texts: what they denote and how they are read.
//!
//! A numeric argument is an optional sign followed by one or more of the digits
//! `0` to `9`. Nothing else is accepted: no blanks, no separators, no digits of
//! other scripts.

use vstd::prelude::*;
use vstd::utf8::is_ascii_chars;

verus! {

/// `c` is one of the ten decimal digits.
pub open spec fn is_digit(c: char) -> bool {
    '0' <= c && c <= '9'
}

/// The number a digit stands for; `0` for any other character.
pub open spec fn digit_value(c: char) -> nat {
    if is_digit(c) {
        (c as int - '0' as int) as nat
    } else {
        0
    }
}

/// Every character of `s` is a decimal digit, and there is at least one.
pub open spec fn is_digits(s: Seq<char>) -> bool {
    &&& s.len() > 0
    &&& forall|i: int| 0 <= i < s.len() ==> is_digit(#[trigger] s[i])
}

/// The natural number that a run of digits denotes, most significant digit first.
pub open spec fn digits_value(s: Seq<char>) -> nat
    decreases s.len(),
{
    if s.len() == 0 {
        0
    } else {
        digits_value(s.drop_last()) * 10 + digit_value(s.last())
    }
}

/// `s` begins with the given sign character.
pub open spec fn has_sign(s: Seq<char>, sign: char) -> bool {
    s.len() > 0 && s[0] == sign
}

/// The integer that a text denotes when it may carry either sign, if it denotes one.
pub open spec fn signed_value(s: Seq<char>) -> Option<int> {
    if has_sign(s, '-') {
        if is_digits(s.skip(1)) {
            Some(-(digits_value(s.skip(1)) as int))
        } else {
            None
        }
    } else {
        unsigned_value(s)
    }
}

/// The integer that a text denotes when only a plus sign is allowed, if it denotes one.
pub open spec fn unsigned_value(s: Seq<char>) -> Option<int> {
    let digits = if has_sign(s, '+') {
        s.skip(1)
    } else {
        s
    };
    if is_digits(digits) {
        Some(digits_value(digits) as int)
    } else {
        None
    }
}

/// What a text gives when read as an unsigned 64-bit number.
pub open spec fn u64_value(s: Seq<char>) -> Option<u64> {
    match unsigned_value(s) {
        Some(v) if v <= u64::MAX => Some(v as u64),
        _ => None,
    }
}

/// What a text gives when read as a signed 64-bit number.
pub open spec fn i64_value(s: Seq<char>) -> Option<i64> {
    match signed_value(s) {
        Some(v) if i64::MIN <= v <= i64::MAX => Some(v as i64),
        _ => None,
    }
}

/// What a text gives when read as a signed 32-bit number.
pub open spec fn i32_value(s: Seq<char>) -> Option<i32> {
    match signed_value(s) {
        Some(v) if i32::MIN <= v <= i32::MAX => Some(v as i32),
        _ => None,
    }
}

/// A run of digits is worth at least as much as any of its prefixes.
proof fn lemma_digits_value_prefix(s: Seq<char>, n: int)
    requires
        0 <= n <= s.len(),
    ensures
        digits_value(s.take(n)) <= digits_value(s),
    decreases s.len(),
{
    if n == s.len() {
        assert(s.take(n) =~= s);
    } else {
        lemma_digits_value_prefix(s.drop_last(), n);
        assert(s.drop_last().take(n) =~= s.take(n));
    }
}

/// A text that reads as a number is not empty, begins with a digit or with a
/// sign that its type allows, and holds nothing but digits after that.
pub proof fn law_numbers_hold_only_digits(text: Seq<char>)
    ensures
        u64_value(text) is Some ==> text.len() > 0 && (is_digit(text[0]) || text[0] == '+'),
        i64_value(text) is Some ==> text.len() > 0 && (is_digit(text[0]) || text[0] == '+'
            || text[0] == '-'),
        u64_value(text) is Some || i64_value(text) is Some || i32_value(text) is Some ==> forall|
            i: int,
        |
            1 <= i < text.len() ==> is_digit(#[trigger] text[i]),
{
    if u64_value(text) is Some || i64_value(text) is Some || i32_value(text) is Some {
        assert forall|i: int| 1 <= i < text.len() implies is_digit(#[trigger] text[i]) by {
            if has_sign(text, '-') || has_sign(text, '+') {
                assert(text.skip(1)[i - 1] == text[i]);
            }
        }
    }
}

/// A minus sign before a run of digits gives the negative of what the digits
/// are worth, down to the least value of the type.
pub proof fn law_negative_numbers_are_read(digits: Seq<char>)
    requires
        is_digits(digits),
        digits_value(digits) <= 0x8000_0000_0000_0000,
    ensures
        i64_value(seq!['-'] + digits) == Some((-(digits_value(digits) as int)) as i64),
        u64_value(seq!['-'] + digits) is None,
{
    let text = seq!['-'] + digits;
    assert(text.skip(1) =~= digits);
    assert(text[0] == '-');
}

/// The ASCII code of `+`.
const PLUS: u8 = 43;

/// The ASCII code of `-`.
const MINUS: u8 = 45;

/// The ASCII code of `0`.
const ZERO: u8 = 48;

/// The ASCII code of `9`.
const NINE: u8 = 57;

/// A text with a character outside ASCII denotes no number.
proof fn lemma_numbers_are_ascii(text: Seq<char>)
    requires
        !is_ascii_chars(text),
    ensures
        unsigned_value(text) is None,
        signed_value(text) is None,
{
    let i = choose|i: int| 0 <= i < text.len() && !('\0' <= #[trigger] text[i] <= '\u{7f}');
    assert(!is_digit(text[i]));
    if i >= 1 {
        assert(text.skip(1)[i - 1] == text[i]);
    }
}

/// Reads the characters of an ASCII text from position `start` on as a run of
/// digits worth at most `limit`.
fn read_digits(text: &str, start: usize, limit: u64) -> (value: Option<u64>)
    requires
        is_ascii_chars(text@),
        start <= text@.len(),
    ensures
        value == (if is_digits(text@.skip(start as int)) && digits_value(text@.skip(start as int))
            <= limit {
            Some(digits_value(text@.skip(start as int)) as u64)
        } else {
            None
        }),
{
    let ghost digits = text@.skip(start as int);
    let len: usize = text.unicode_len();
    if start == len {
        return None;
    }
    let mut value: u64 = 0;
    let mut i: usize = start;
    while i < len
        invariant
            start <= i <= len,
            len == text@.len(),
            is_ascii_chars(text@),
            digits == text@.skip(start as int),
            forall|j: int| 0 <= j < i - start ==> is_digit(#[trigger] digits[j]),
            value == digits_value(digits.take(i - start)),
            value <= limit,
        decreases len - i,
    {
        let byte: u8 = text.get_ascii(i);
        let ghost c = text@[i as int];
        assert(digits[i - start] == c);
        assert('\0' <= c <= '\u{7f}');
        if byte < ZERO || byte > NINE {
            return None;
        }
        let digit: u64 = (byte - ZERO) as u64;
        proof {
            let longer = digits.take(i - start + 1);
            assert(longer.drop_last() =~= digits.take(i - start));
            assert(longer.last() == c);
            assert(digits_value(longer) == value * 10 + digit);
            lemma_digits_value_prefix(digits, i - start + 1);
        }
        if digit > limit || value > (limit - digit) / 10 {
            return None;
        }
        value = value * 10 + digit;
        i = i + 1;
    }
    proof {
        assert(digits.take(i - start) =~= digits);
    }
    Some(value)
}

/// Whether an ASCII text begins with the given sign.
fn begins_with(text: &str, sign: u8) -> (found: bool)
    requires
        is_ascii_chars(text@),
        sign == PLUS || sign == MINUS,
    ensures
        found == has_sign(text@, sign as char),
{
    if text.is_empty() {
        false
    } else {
        assert('\0' <= text@[0] <= '\u{7f}');
        text.get_ascii(0) == sign
    }
}

/// Reads `text` as an unsigned 64-bit number.
pub fn parse_u64(text: &str) -> (value: Option<u64>)
    ensures
        value == u64_value(text@),
{
    if !text.is_ascii() {
        proof {
            lemma_numbers_are_ascii(text@);
        }
        return None;
    }
    let start: usize = if begins_with(text, PLUS) {
        1
    } else {
        0
    };
    proof {
        assert(text@.skip(0) =~= text@);
    }
    read_digits(text, start, u64::MAX)
}

/// Reads `text` as a signed number between `-(negative_limit)` and `positive_limit`.
fn read_signed(text: &str, negative_limit: u64, positive_limit: u64) -> (value: Option<i64>)
    requires
        negative_limit <= 0x8000_0000_0000_0000,
        positive_limit <= 0x7fff_ffff_ffff_ffff,
    ensures
        value == (match signed_value(text@) {
            Some(v) if -negative_limit <= v <= positive_limit => Some(v as i64),
            _ => None,
        }),
{
    if !text.is_ascii() {
        proof {
            lemma_numbers_are_ascii(text@);
        }
        return None;
    }
    proof {
        assert(text@.skip(0) =~= text@);
    }
    if begins_with(text, MINUS) {
        match read_digits(text, 1, negative_limit) {
            Some(magnitude) => {
                if magnitude == 0x8000_0000_0000_0000 {
                    Some(i64::MIN)
                } else {
                    Some(-(magnitude as i64))
                }
            },
            None => None,
        }
    } else {
        let start: usize = if begins_with(text, PLUS) {
            1
        } else {
            0
        };
        match read_digits(text, start, positive_limit) {
            Some(magnitude) => Some(magnitude as i64),
            None => None,
        }
    }
}

/// Reads `text` as a signed 64-bit number.
pub fn parse_i64(text: &str) -> (value: Option<i64>)
    ensures
        value == i64_value(text@),
{
    read_signed(text, 0x8000_0000_0000_0000, 0x7fff_ffff_ffff_ffff)
}

/// Reads `text` as a signed 32-bit number.
pub fn parse_i32(text: &str) -> (value: Option<i32>)
    ensures
        value == i32_value(text@),
{
    match read_signed(text, 0x8000_0000, 0x7fff_ffff) {
        Some(v) => Some(v as i32),
        None => None,
    }
}

/// The digit that stands for a number below ten.
pub open spec fn digit_char(d: nat) -> char {
    ('0' as int + d) as char
}

/// A natural number written in decimal digits, without leading zeros.
pub open spec fn natural_text(n: nat) -> Seq<char>
    decreases n,
{
    if n < 10 {
        seq![digit_char(n)]
    } else {
        natural_text(n / 10).push(digit_char(n % 10))
    }
}

/// An integer written in decimal digits, with a minus sign if it is negative.
pub open spec fn decimal_text(n: int) -> Seq<char> {
    if n < 0 {
        seq!['-'] + natural_text((-n) as nat)
    } else {
        natural_text(n as nat)
    }
}

/// A natural number written out is a run of digits that is worth the number.
proof fn lemma_natural_text_is_digits(n: nat)
    ensures
        is_digits(natural_text(n)),
        digits_value(natural_text(n)) == n,
    decreases n,
{
    if n < 10 {
        let text = seq![digit_char(n)];
        assert(text.drop_last() =~= Seq::<char>::empty());
        assert(digits_value(text.drop_last()) == 0);
        assert(text.last() == digit_char(n));
    } else {
        lemma_natural_text_is_digits(n / 10);
        let text = natural_text(n);
        assert(text.drop_last() =~= natural_text(n / 10));
        assert(text.last() == digit_char(n % 10));
    }
}

/// Writing an integer out and reading the text back gives the integer.
pub proof fn law_decimal_text_reads_back(n: int)
    ensures
        signed_value(decimal_text(n)) == Some(n),
        n >= 0 ==> unsigned_value(decimal_text(n)) == Some(n),
        0 <= n <= u64::MAX ==> u64_value(decimal_text(n)) == Some(n as u64),
        i64::MIN <= n <= i64::MAX ==> i64_value(decimal_text(n)) == Some(n as i64),
        i32::MIN <= n <= i32::MAX ==> i32_value(decimal_text(n)) == Some(n as i32),
{
    if n < 0 {
        let digits = natural_text((-n) as nat);
        lemma_natural_text_is_digits((-n) as nat);
        assert(decimal_text(n).skip(1) =~= digits);
        assert(decimal_text(n)[0] == '-');
    } else {
        lemma_natural_text_is_digits(n as nat);
        assert(is_digit(decimal_text(n)[0]));
    }
}

/// The text of one digit.
fn digit_str(d: u64) -> (text: &'static str)
    requires
        d < 10,
    ensures
        text@ == seq![digit_char(d as nat)],
{
    proof {
        reveal_strlit("0");
        reveal_strlit("1");
        reveal_strlit("2");
        reveal_strlit("3");
        reveal_strlit("4");
        reveal_strlit("5");
        reveal_strlit("6");
        reveal_strlit("7");
        reveal_strlit("8");
        reveal_strlit("9");
    }
    let text = if d == 0 {
        "0"
    } else if d == 1 {
        "1"
    } else if d == 2 {
        "2"
    } else if d == 3 {
        "3"
    } else if d == 4 {
        "4"
    } else if d == 5 {
        "5"
    } else if d == 6 {
        "6"
    } else if d == 7 {
        "7"
    } else if d == 8 {
        "8"
    } else {
        "9"
    };
    assert(text@ =~= seq![digit_char(d as nat)]);
    text
}

/// Writes a natural number at the end of a text.
fn append_natural(out: &mut String, n: u64)
    ensures
        final(out)@ == old(out)@ + natural_text(n as nat),
    decreases n,
{
    if n >= 10 {
        append_natural(out, n / 10);
    }
    out.append(digit_str(n % 10));
    proof {
        if n >= 10 {
            assert(final(out)@ =~= old(out)@ + natural_text(n as nat));
        }
    }
}

/// Writes an integer at the end of a text.
pub fn append_decimal(out: &mut String, n: i64)
    ensures
        final(out)@ == old(out)@ + decimal_text(n as int),
{
    if n < 0 {
        proof {
            reveal_strlit("-");
        }
        out.append("-");
        let magnitude: u64 = (-(n + 1)) as u64 + 1;
        append_natural(out, magnitude);
        assert(final(out)@ =~= old(out)@ + decimal_text(n as int));
    } else {
        append_natural(out, n as u64);
    }
}

/// The text of an integer.
pub fn to_decimal(n: i64) -> (text: String)
    ensures
        text@ == decimal_text(n as int),
{
    let mut text = String::new();
    append_decimal(&mut text, n);
    assert(text@ =~= decimal_text(n as int));
    text
}

} // verus!
