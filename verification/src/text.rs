//! Numbers as text: decimal and hexadecimal rendering, decimal parsing, and
//! the conversions between `str`, `String` and `Vec<char>` they rest on.

use vstd::prelude::*;

verus! {

/// Collects the characters of `chars` into an owned string.
///
/// Trusted: `String::from_iter` over the characters of a vector yields a
/// string that consists of exactly those characters, in the same order.
#[verifier::external_body]
pub(crate) fn string_of_chars(chars: &Vec<char>) -> (s: String)
    ensures
        s@ == chars@,
{
    String::from_iter(chars.iter())
}

/// The characters of `s`, in order.
pub fn chars_of(s: &str) -> (chars: Vec<char>)
    ensures
        chars@ == s@,
{
    let mut chars: Vec<char> = Vec::new();
    for c in it: s.chars()
        invariant
            it.seq() == s@,
            chars@ == s@.take(it.index()),
    {
        chars.push(c);
    }
    chars
}

/// Appends the characters of `s` to `out`.
pub fn push_str(out: &mut Vec<char>, s: &str)
    ensures
        final(out)@ == old(out)@ + s@,
{
    for c in it: s.chars()
        invariant
            it.seq() == s@,
            out@ == old(out)@ + s@.take(it.index()),
    {
        out.push(c);
    }
}

/// The character that stands for the decimal digit `d`.
pub open spec fn digit_char(d: int) -> char
    recommends
        0 <= d < 10,
{
    ('0' as int + d) as char
}

/// The decimal digits of `n`, most significant first, without leading zeros.
pub open spec fn decimal_digits(n: nat) -> Seq<char>
    decreases n,
{
    if n < 10 {
        seq![digit_char(n as int)]
    } else {
        decimal_digits(n / 10).push(digit_char((n % 10) as int))
    }
}

/// The decimal text of a signed number: a minus sign for a negative number,
/// then the digits of its magnitude.
pub open spec fn decimal_text(v: int) -> Seq<char> {
    if v < 0 {
        seq!['-'] + decimal_digits((-v) as nat)
    } else {
        decimal_digits(v as nat)
    }
}

/// The character that stands for the hexadecimal digit `d`, in upper case.
pub open spec fn hex_digit_char(d: int) -> char
    recommends
        0 <= d < 16,
{
    if d < 10 {
        ('0' as int + d) as char
    } else {
        ('A' as int + (d - 10)) as char
    }
}

/// The upper-case hexadecimal digits of `n`, most significant first, without
/// leading zeros and without a prefix.
pub open spec fn hex_digits(n: nat) -> Seq<char>
    decreases n,
{
    if n < 16 {
        seq![hex_digit_char(n as int)]
    } else {
        hex_digits(n / 16).push(hex_digit_char((n % 16) as int))
    }
}

fn digit_to_char(d: u8) -> (c: char)
    requires
        d < 10,
    ensures
        c == digit_char(d as int),
{
    (d + 48) as char
}

fn hex_digit_to_char(d: u8) -> (c: char)
    requires
        d < 16,
    ensures
        c == hex_digit_char(d as int),
{
    if d < 10 {
        (d + 48) as char
    } else {
        (d + 55) as char
    }
}

/// Appends the decimal digits of `n` to `out`.
pub fn push_decimal(n: u64, out: &mut Vec<char>)
    ensures
        final(out)@ == old(out)@ + decimal_digits(n as nat),
    decreases n,
{
    if n >= 10 {
        push_decimal(n / 10, out);
    }
    out.push(digit_to_char((n % 10) as u8));
}

/// Appends the upper-case hexadecimal digits of `n` to `out`.
pub fn push_hex(n: u64, out: &mut Vec<char>)
    ensures
        final(out)@ == old(out)@ + hex_digits(n as nat),
    decreases n,
{
    if n >= 16 {
        push_hex(n / 16, out);
    }
    out.push(hex_digit_to_char((n % 16) as u8));
}

/// Appends the decimal text of `v` to `out`.
pub fn push_signed_decimal(v: i32, out: &mut Vec<char>)
    ensures
        final(out)@ == old(out)@ + decimal_text(v as int),
{
    if v < 0 {
        out.push('-');
        let magnitude: i64 = -(v as i64);
        push_decimal(magnitude as u64, out);
        assert(out@ == old(out)@ + (seq!['-'] + decimal_digits((-v) as nat)));
    } else {
        push_decimal(v as u64, out);
    }
}

/// The decimal text of `v`, with a leading minus sign if it is negative.
pub fn i32_to_decimal(v: i32) -> (s: String)
    ensures
        s@ == decimal_text(v as int),
{
    let mut out: Vec<char> = Vec::new();
    push_signed_decimal(v, &mut out);
    string_of_chars(&out)
}

/// Whether `c` is one of the ten decimal digits.
pub open spec fn is_digit(c: char) -> bool {
    '0' <= c <= '9'
}

/// Whether every character of `s` is a decimal digit.
pub open spec fn all_digits(s: Seq<char>) -> bool {
    forall|i: int| 0 <= i < s.len() ==> is_digit(#[trigger] s[i])
}

/// The number that a sequence of decimal digits denotes; leading zeros count
/// for nothing.
pub open spec fn digits_value(s: Seq<char>) -> nat
    decreases s.len(),
{
    if s.len() == 0 {
        0
    } else {
        (digits_value(s.drop_last()) * 10 + (s.last() as int - '0' as int)) as nat
    }
}

/// How many characters of `s` belong to a leading sign: one for `+` or `-`.
pub open spec fn sign_len(s: Seq<char>) -> int {
    if s.len() > 0 && (s[0] == '-' || s[0] == '+') {
        1
    } else {
        0
    }
}

/// The signed 32-bit number that `s` denotes: an optional `+` or `-`, then
/// one or more decimal digits and nothing else, with a value that fits.
/// `None` for every other text.
pub open spec fn parse_i32_text(s: Seq<char>) -> Option<i32> {
    let digits = s.skip(sign_len(s));
    let magnitude = digits_value(digits) as int;
    let value = if s.len() > 0 && s[0] == '-' {
        -magnitude
    } else {
        magnitude
    };
    if digits.len() > 0 && all_digits(digits) && i32::MIN <= value <= i32::MAX {
        Some(value as i32)
    } else {
        None
    }
}

/// A prefix of a digit sequence denotes no more than the whole.
pub proof fn lemma_digits_value_prefix(s: Seq<char>, k: int)
    requires
        all_digits(s),
        0 <= k <= s.len(),
    ensures
        digits_value(s.take(k)) <= digits_value(s),
    decreases s.len() - k,
{
    if k == s.len() {
        assert(s.take(k) == s);
    } else {
        lemma_digits_value_prefix(s, k + 1);
        assert(s.take(k + 1).drop_last() == s.take(k));
        assert(is_digit(s.take(k + 1).last()));
    }
}

/// Parses the decimal text of a signed 32-bit number.
pub fn parse_i32(s: &str) -> (r: Option<i32>)
    ensures
        r == parse_i32_text(s@),
{
    let chars = chars_of(s);
    let n = chars.len();
    if n == 0 {
        return None;
    }
    let negative = chars[0] == '-';
    let start: usize = if chars[0] == '-' || chars[0] == '+' {
        1
    } else {
        0
    };
    if start == n {
        return None;
    }
    let ghost digits = s@.skip(start as int);
    let mut magnitude: u64 = 0;
    let mut i: usize = start;
    while i < n
        invariant
            start <= i <= n,
            n == chars.len(),
            chars@ == s@,
            start == sign_len(s@),
            digits == s@.skip(start as int),
            all_digits(digits.take(i - start)),
            magnitude == digits_value(digits.take(i - start)),
            magnitude <= 0x8000_0000,
        decreases n - i,
    {
        let c = chars[i];
        if !(c >= '0' && c <= '9') {
            assert(!is_digit(digits[i - start]));
            return None;
        }
        let d: u64 = (c as u32 - 48) as u64;
        let next: u64 = magnitude * 10 + d;
        proof {
            let taken = digits.take(i + 1 - start);
            assert(taken.drop_last() == digits.take(i - start));
            assert(taken.last() == c);
            assert(next == digits_value(taken));
            assert forall|j: int| 0 <= j < taken.len() implies is_digit(#[trigger] taken[j]) by {
                if j < i - start {
                    assert(taken[j] == digits.take(i - start)[j]);
                }
            }
            if next > 0x8000_0000 && all_digits(digits) {
                lemma_digits_value_prefix(digits, i + 1 - start);
            }
        }
        if next > 0x8000_0000 {
            return None;
        }
        magnitude = next;
        i = i + 1;
    }
    assert(digits.take(n - start) == digits);
    if negative {
        let value: i64 = -(magnitude as i64);
        Some(value as i32)
    } else if magnitude <= 0x7fff_ffff {
        Some(magnitude as i32)
    } else {
        None
    }
}

/// The decimal digits of a number are digits, at least one of them, and
/// denote that number.
pub proof fn lemma_decimal_digits_denote(n: nat)
    ensures
        decimal_digits(n).len() >= 1,
        all_digits(decimal_digits(n)),
        digits_value(decimal_digits(n)) == n,
    decreases n,
{
    let text = decimal_digits(n);
    if n < 10 {
        assert(text.drop_last() == Seq::<char>::empty());
        assert(digits_value(text.drop_last()) == 0);
    } else {
        lemma_decimal_digits_denote(n / 10);
        assert(text.drop_last() == decimal_digits(n / 10));
        assert forall|i: int| 0 <= i < text.len() implies is_digit(#[trigger] text[i]) by {
            if i < text.len() - 1 {
                assert(text[i] == decimal_digits(n / 10)[i]);
            }
        }
    }
}

/// Different numbers have different decimal digits.
pub proof fn lemma_decimal_digits_injective(a: nat, b: nat)
    requires
        decimal_digits(a) == decimal_digits(b),
    ensures
        a == b,
{
    lemma_decimal_digits_denote(a);
    lemma_decimal_digits_denote(b);
}

/// Rendering a signed 32-bit number as decimal text and parsing that text
/// gives the number back.
pub proof fn lemma_decimal_round_trip(v: i32)
    ensures
        parse_i32_text(decimal_text(v as int)) == Some(v),
{
    let text = decimal_text(v as int);
    if v < 0 {
        let digits = decimal_digits((-v) as nat);
        lemma_decimal_digits_denote((-v) as nat);
        assert(text[0] == '-');
        assert(text.skip(1) == digits);
    } else {
        lemma_decimal_digits_denote(v as nat);
        assert(is_digit(text[0]));
        assert(text.skip(0) == text);
    }
}

/// Whether `c` is an upper-case hexadecimal digit.
pub open spec fn is_hex_digit(c: char) -> bool {
    ('0' <= c <= '9') || ('A' <= c <= 'F')
}

/// The number that a sequence of upper-case hexadecimal digits denotes.
pub open spec fn hex_value(s: Seq<char>) -> nat
    decreases s.len(),
{
    if s.len() == 0 {
        0
    } else {
        let last = if s.last() <= '9' {
            s.last() as int - '0' as int
        } else {
            s.last() as int - 'A' as int + 10
        };
        (hex_value(s.drop_last()) * 16 + last) as nat
    }
}

/// The hexadecimal digits of a number are upper-case hexadecimal digits, at
/// least one of them, and denote that number.
pub proof fn lemma_hex_digits_denote(n: nat)
    ensures
        hex_digits(n).len() >= 1,
        forall|i: int| 0 <= i < hex_digits(n).len() ==> is_hex_digit(#[trigger] hex_digits(n)[i]),
        hex_value(hex_digits(n)) == n,
    decreases n,
{
    let text = hex_digits(n);
    if n < 16 {
        assert(text.drop_last() == Seq::<char>::empty());
        assert(hex_value(text.drop_last()) == 0);
    } else {
        lemma_hex_digits_denote(n / 16);
        assert(text.drop_last() == hex_digits(n / 16));
        assert forall|i: int| 0 <= i < text.len() implies is_hex_digit(#[trigger] text[i]) by {
            if i < text.len() - 1 {
                assert(text[i] == hex_digits(n / 16)[i]);
            }
        }
    }
}

/// Different numbers have different hexadecimal digits.
pub proof fn lemma_hex_digits_injective(a: nat, b: nat)
    requires
        hex_digits(a) == hex_digits(b),
    ensures
        a == b,
{
    lemma_hex_digits_denote(a);
    lemma_hex_digits_denote(b);
}

} // verus!
