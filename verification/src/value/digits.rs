//! Decimal text: what a run of ASCII digits stands for, and the calls that
//! read numbers from text.

use vstd::prelude::*;

verus! {

/// Whether `b` is an ASCII decimal digit.
pub open spec fn is_digit(b: u8) -> bool {
    0x30 <= b <= 0x39
}

/// Whether the bytes of `s` from `from` up to `to` are digits.
pub open spec fn digits_in(s: Seq<u8>, from: int, to: int) -> bool {
    forall|i: int| from <= i < to ==> is_digit(#[trigger] s[i])
}

/// Whether `s` holds digits only.
pub open spec fn all_digits(s: Seq<u8>) -> bool {
    digits_in(s, 0, s.len() as int)
}

/// The number that a run of digits writes in base ten. The empty run writes 0.
pub open spec fn decimal_value(s: Seq<u8>) -> nat
    decreases s.len(),
{
    if s.len() == 0 {
        0
    } else {
        decimal_value(s.drop_last()) * 10 + (s.last() - 0x30) as nat
    }
}

/// Ten to the power `n`.
pub open spec fn pow10(n: nat) -> nat
    decreases n,
{
    if n == 0 {
        1
    } else {
        10 * pow10((n - 1) as nat)
    }
}

/// A run of `n` digits writes a number below ten to the power `n`.
pub proof fn lemma_decimal_value_bound(s: Seq<u8>)
    requires
        all_digits(s),
    ensures
        decimal_value(s) < pow10(s.len()),
    decreases s.len(),
{
    if s.len() > 0 {
        lemma_decimal_value_bound(s.drop_last());
    }
}

/// The plus sign.
pub const PLUS: u8 = 0x2b;

/// The minus sign.
pub const MINUS: u8 = 0x2d;

/// The integer that a text writes in base ten: a plus or a minus or neither,
/// then one digit or more, and nothing else. Zeros may lead.
pub open spec fn decimal_integer(text: Seq<u8>) -> Option<int> {
    if text.len() == 0 {
        None
    } else {
        let signed = text[0] == PLUS || text[0] == MINUS;
        let digits = if signed { text.subrange(1, text.len() as int) } else { text };
        if digits.len() == 0 || !all_digits(digits) {
            None
        } else if text[0] == MINUS {
            Some(-(decimal_value(digits) as int))
        } else {
            Some(decimal_value(digits) as int)
        }
    }
}

/// The integer that a text writes, where 64 signed bits hold it.
pub open spec fn text_as_i64(text: Seq<u8>) -> Option<i64> {
    match decimal_integer(text) {
        Some(n) => if i64::MIN <= n <= i64::MAX {
            Some(n as i64)
        } else {
            None
        },
        None => None,
    }
}

/// The integer that a text writes, where 64 unsigned bits hold it and the
/// text has no minus, not even before a zero.
pub open spec fn text_as_u64(text: Seq<u8>) -> Option<u64> {
    match decimal_integer(text) {
        Some(n) => if text[0] != MINUS && n <= u64::MAX {
            Some(n as u64)
        } else {
            None
        },
        None => None,
    }
}

/// Calls `lexical::try_parse` at `i64`. The call reads the whole text as a
/// decimal integer with an optional sign. It fails on an empty text, on a
/// sign without digits, on a byte that is no digit and on a number outside
/// `i64`; the contract claims that it gives the number that the text writes
/// in every other case.
#[verifier::external_body]
pub(crate) fn try_parse_i64(text: &[u8]) -> (r: Option<i64>)
    ensures
        r == text_as_i64(text@),
{
    lexical::try_parse::<i64, _>(text).ok()
}

/// Calls `lexical::try_parse` at `u64`. The call reads the whole text as a
/// decimal integer with an optional plus. It fails on an empty text, on a
/// text that begins with a minus, on a plus without digits, on a byte that
/// is no digit and on a number outside `u64`; the contract claims that it
/// gives the number that the text writes in every other case.
#[verifier::external_body]
pub(crate) fn try_parse_u64(text: &[u8]) -> (r: Option<u64>)
    ensures
        r == text_as_u64(text@),
{
    lexical::try_parse::<u64, _>(text).ok()
}

/// Calls `lexical::parse` at `u32`, which reads digits from the front of the
/// text and wraps on overflow. On at most nine digits and nothing else there
/// is no overflow, and the contract claims that the result is the number they
/// write.
#[verifier::external_body]
pub(crate) fn parse_digits(text: &[u8]) -> (r: u32)
    requires
        all_digits(text@),
        text@.len() <= 9,
    ensures
        r == decimal_value(text@),
{
    lexical::parse::<u32, _>(text)
}

/// Tests whether the bytes of `text` from `from` up to `to` are digits.
pub fn digits_between(text: &[u8], from: usize, to: usize) -> (r: bool)
    requires
        from <= to <= text@.len(),
    ensures
        r == digits_in(text@, from as int, to as int),
{
    let mut i: usize = from;
    while i < to
        invariant
            from <= i <= to <= text@.len(),
            digits_in(text@, from as int, i as int),
        decreases to - i,
    {
        let b: u8 = text[i];
        if !(0x30 <= b && b <= 0x39) {
            return false;
        }
        i += 1;
    }
    true
}

} // verus!
