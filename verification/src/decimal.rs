//! Decimal integers as text: what a text denotes, and how an integer is
//! written.

use vstd::prelude::*;

use crate::text::chars_of;

verus! {

/// Whether `c` is one of the ten ASCII digits.
pub open spec fn is_digit(c: char) -> bool {
    '0' <= c && c <= '9'
}

/// The number that the digit `c` stands for; zero for any other character.
pub open spec fn digit_value(c: char) -> nat {
    if is_digit(c) {
        (c as int - '0' as int) as nat
    } else {
        0
    }
}

/// Whether every character of `text` is an ASCII digit.
pub open spec fn all_digits(text: Seq<char>) -> bool {
    forall|i: int| 0 <= i < text.len() ==> is_digit(#[trigger] text[i])
}

/// The number that a run of digits denotes, most significant digit first.
pub open spec fn digits_value(text: Seq<char>) -> nat
    decreases text.len(),
{
    if text.len() == 0 {
        0
    } else {
        digits_value(text.drop_last()) * 10 + digit_value(text.last())
    }
}

/// Whether `text` opens with a sign: `+` always counts, `-` only where
/// negative numbers are `allowed`.
pub open spec fn has_sign(text: Seq<char>, allowed: bool) -> bool {
    text.len() > 0 && (text[0] == '+' || (allowed && text[0] == '-'))
}

/// The digits of `text`: what is left once a sign has been taken off.
pub open spec fn digits_part(text: Seq<char>, signed: bool) -> Seq<char> {
    if has_sign(text, signed) {
        text.drop_first()
    } else {
        text
    }
}

/// The integer that `text` denotes: an optional sign followed by one or more
/// ASCII digits and nothing else. A leading `-` is a sign only when `signed`.
pub open spec fn decimal_value(text: Seq<char>, signed: bool) -> Option<int> {
    let digits = digits_part(text, signed);
    if digits.len() > 0 && all_digits(digits) {
        if signed && text[0] == '-' {
            Some(-(digits_value(digits) as int))
        } else {
            Some(digits_value(digits) as int)
        }
    } else {
        None
    }
}

/// The 64-bit signed integer that `text` denotes, if it denotes one.
pub open spec fn decimal_i64(text: Seq<char>) -> Option<i64> {
    match decimal_value(text, true) {
        Some(v) => if i64::MIN <= v <= i64::MAX {
            Some(v as i64)
        } else {
            None
        },
        None => None,
    }
}

/// The 32-bit unsigned integer that `text` denotes, if it denotes one.
pub open spec fn decimal_u32(text: Seq<char>) -> Option<u32> {
    match decimal_value(text, false) {
        Some(v) => if v <= u32::MAX {
            Some(v as u32)
        } else {
            None
        },
        None => None,
    }
}

/// The character that writes the digit `d`.
pub open spec fn digit_char(d: nat) -> char
    recommends
        d < 10,
{
    ((d + 48) as u8) as char
}

/// The digits that write `n`, without leading zeros.
pub open spec fn natural_text(n: nat) -> Seq<char>
    decreases n,
{
    if n < 10 {
        seq![digit_char(n)]
    } else {
        natural_text(n / 10).push(digit_char(n % 10))
    }
}

/// The text that writes `i` in decimal, with a leading `-` when negative.
pub open spec fn decimal_text(i: int) -> Seq<char> {
    if i < 0 {
        seq!['-'] + natural_text((-i) as nat)
    } else {
        natural_text(i as nat)
    }
}

/// A longer run of characters never denotes less than one of its prefixes.
pub proof fn lemma_digits_value_prefix(text: Seq<char>, k: int)
    requires
        0 <= k <= text.len(),
    ensures
        digits_value(text.take(k)) <= digits_value(text),
    decreases text.len() - k,
{
    if k == text.len() {
        assert(text.take(k) =~= text);
    } else {
        lemma_digits_value_prefix(text.drop_last(), k);
        assert(text.drop_last().take(k) =~= text.take(k));
    }
}

/// Reads the digits `chars[start..end]` as a number no greater than `limit`.
fn parse_digits(chars: &Vec<char>, start: usize, end: usize, limit: u64) -> (value: Option<u64>)
    requires
        start <= end <= chars.len(),
    ensures
        value == (if start < end && all_digits(chars@.subrange(start as int, end as int))
            && digits_value(chars@.subrange(start as int, end as int)) <= limit {
            Some(digits_value(chars@.subrange(start as int, end as int)) as u64)
        } else {
            None
        }),
{
    let ghost digits = chars@.subrange(start as int, end as int);
    if start == end {
        return None;
    }
    let mut total: u128 = 0;
    let mut i: usize = start;
    while i < end
        invariant
            start <= i <= end <= chars.len(),
            digits == chars@.subrange(start as int, end as int),
            all_digits(digits.take(i - start)),
            total == digits_value(digits.take(i - start)),
            total <= limit,
        decreases end - i,
    {
        let c = chars[i];
        let ghost before = digits.take(i - start);
        let ghost after = digits.take(i - start + 1);
        assert(after.drop_last() =~= before);
        assert(after.last() == c);
        if !('0' <= c && c <= '9') {
            assert(!is_digit(digits[i - start]));
            return None;
        }
        let digit: u8 = c as u8 - 48;
        let next: u128 = total * 10 + digit as u128;
        assert(next == digits_value(after));
        if next > limit as u128 {
            proof {
                lemma_digits_value_prefix(digits, i - start + 1);
            }
            return None;
        }
        total = next;
        i += 1;
        assert forall|j: int| 0 <= j < after.len() implies is_digit(#[trigger] after[j]) by {
            if j < before.len() {
                assert(after[j] == before[j]);
            }
        }
    }
    assert(digits.take(end - start) =~= digits);
    Some(total as u64)
}

/// Reads `chars[start..end]` as a signed 64-bit decimal integer.
pub fn parse_i64_chars(chars: &Vec<char>, start: usize, end: usize) -> (value: Option<i64>)
    requires
        start <= end <= chars.len(),
    ensures
        value == decimal_i64(chars@.subrange(start as int, end as int)),
{
    let ghost text = chars@.subrange(start as int, end as int);
    if start == end {
        return None;
    }
    let first = chars[start];
    assert(text[0] == first);
    let negative = first == '-';
    let signed = negative || first == '+';
    let from: usize = if signed {
        start + 1
    } else {
        start
    };
    assert(digits_part(text, true) =~= chars@.subrange(from as int, end as int));
    if negative {
        match parse_digits(chars, from, end, 0x8000_0000_0000_0000) {
            Some(magnitude) => {
                if magnitude == 0x8000_0000_0000_0000 {
                    Some(i64::MIN)
                } else {
                    Some(0 - (magnitude as i64))
                }
            },
            None => None,
        }
    } else {
        match parse_digits(chars, from, end, 0x7fff_ffff_ffff_ffff) {
            Some(magnitude) => Some(magnitude as i64),
            None => None,
        }
    }
}

/// Reads `chars[start..end]` as an unsigned 32-bit decimal integer.
pub fn parse_u32_chars(chars: &Vec<char>, start: usize, end: usize) -> (value: Option<u32>)
    requires
        start <= end <= chars.len(),
    ensures
        value == decimal_u32(chars@.subrange(start as int, end as int)),
{
    let ghost text = chars@.subrange(start as int, end as int);
    if start == end {
        return None;
    }
    let first = chars[start];
    assert(text[0] == first);
    let from: usize = if first == '+' {
        start + 1
    } else {
        start
    };
    assert(digits_part(text, false) =~= chars@.subrange(from as int, end as int));
    match parse_digits(chars, from, end, 0xffff_ffff) {
        Some(magnitude) => Some(magnitude as u32),
        None => None,
    }
}

/// Reads `text` as a signed 64-bit decimal integer: an optional sign, then
/// digits only. Anything else, or a number out of range, gives `None`.
pub fn parse_i64(text: &str) -> (value: Option<i64>)
    ensures
        value == decimal_i64(text@),
{
    let chars = chars_of(text);
    assert(chars@.subrange(0, chars@.len() as int) =~= text@);
    parse_i64_chars(&chars, 0, chars.len())
}

/// Reads `text` as an unsigned 32-bit decimal integer: an optional `+`, then
/// digits only. Anything else, or a number out of range, gives `None`.
pub fn parse_u32(text: &str) -> (value: Option<u32>)
    ensures
        value == decimal_u32(text@),
{
    let chars = chars_of(text);
    assert(chars@.subrange(0, chars@.len() as int) =~= text@);
    parse_u32_chars(&chars, 0, chars.len())
}

/// `String::push` of the standard library: the character is appended to the
/// end of the string and nothing else changes.
pub assume_specification[ String::push ](text: &mut String, c: char)
    ensures
        final(text)@ == old(text)@.push(c),
;

/// The digits of `n`, least significant first.
fn reversed_digits(n: u64) -> (digits: Vec<char>)
    ensures
        digits@.reverse() == natural_text(n as nat),
        digits@.len() >= 1,
{
    let mut digits: Vec<char> = Vec::new();
    let mut rest: u64 = n;
    while rest >= 10
        invariant
            natural_text(n as nat) == natural_text(rest as nat) + digits@.reverse(),
        decreases rest,
    {
        let digit: u8 = (rest % 10) as u8;
        let ghost before = digits@;
        digits.push((digit + 48) as char);
        assert(digits@.reverse() =~= seq![digit_char((rest % 10) as nat)] + before.reverse());
        assert(natural_text(rest as nat) + before.reverse() =~= natural_text((rest / 10) as nat)
            + digits@.reverse());
        rest = rest / 10;
    }
    let digit: u8 = rest as u8;
    let ghost before = digits@;
    digits.push((digit + 48) as char);
    assert(digits@.reverse() =~= natural_text(rest as nat) + before.reverse());
    digits
}

/// Writes `n` in decimal: a `-` for a negative number, then its digits
/// without leading zeros.
pub fn i64_text(n: i64) -> (text: String)
    ensures
        text@ == decimal_text(n as int),
{
    let mut text = String::new();
    let magnitude: u64 = if n < 0 {
        text.push('-');
        if n == i64::MIN {
            0x8000_0000_0000_0000
        } else {
            (0 - n) as u64
        }
    } else {
        n as u64
    };
    let digits = reversed_digits(magnitude);
    let ghost sign = text@;
    let mut left: usize = digits.len();
    while left > 0
        invariant
            left <= digits.len(),
            text@ == sign + digits@.reverse().take(digits.len() - left),
        decreases left,
    {
        left -= 1;
        let ghost before = text@;
        text.push(digits[left]);
        assert(digits@.reverse()[digits.len() - left - 1] == digits@[left as int]);
        assert(text@ =~= sign + digits@.reverse().take(digits.len() - left));
    }
    assert(digits@.reverse().take(digits.len() as int) =~= digits@.reverse());
    assert(text@ =~= decimal_text(n as int));
    text
}

/// Every digit run written by `natural_text` reads back as the number it
/// was written from.
pub proof fn lemma_natural_text_reads_back(n: nat)
    ensures
        natural_text(n).len() >= 1,
        all_digits(natural_text(n)),
        digits_value(natural_text(n)) == n,
    decreases n,
{
    if n < 10 {
        let text = natural_text(n);
        assert(text.drop_last() =~= Seq::<char>::empty());
        assert(digits_value(text.drop_last()) == 0);
    } else {
        lemma_natural_text_reads_back(n / 10);
        let text = natural_text(n);
        assert(text.drop_last() =~= natural_text(n / 10));
        assert(text.last() == digit_char(n % 10));
    }
}

/// Writing a 64-bit integer and reading the text back gives the integer.
pub proof fn law_text_reads_back(n: i64)
    ensures
        decimal_i64(decimal_text(n as int)) == Some(n),
{
    let text = decimal_text(n as int);
    if n < 0 {
        let digits = natural_text((-n) as nat);
        lemma_natural_text_reads_back((-n) as nat);
        assert(text[0] == '-');
        assert(text.drop_first() =~= digits);
    } else {
        lemma_natural_text_reads_back(n as nat);
        assert(is_digit(text[0]));
    }
}

} // verus!
