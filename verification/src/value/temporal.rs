//! The textual forms in which MySQL writes dates, times of day and durations,
//! and the functions that read them.

use crate::value::digits::{
    all_digits, decimal_value, digits_between, digits_in, is_digit,
    lemma_decimal_value_bound, parse_digits, pow10,
};
use vstd::prelude::*;

verus! {

/// The dash between year, month and day, which is also the minus of a
/// negative duration.
pub const DASH: u8 = 0x2d;

/// The colon between hours, minutes and seconds.
pub const COLON: u8 = 0x3a;

/// The space between a day and a time of day.
pub const SPACE: u8 = 0x20;

/// The decimal point before the fraction of a second.
pub const DOT: u8 = 0x2e;

/// The layouts of a date with or without a time of day.
#[derive(Clone, Copy, Debug, PartialEq, Eq)]
pub enum DateTimeKind {
    /// `YYYY-MM-DD`
    Ymd,
    /// `YYYY-MM-DD HH:MM:SS`
    YmdHms,
    /// `YYYY-MM-DD HH:MM:SS.f`, with one to six digits after the point
    YmdHmsMs,
}

/// The layouts of a duration, without its sign.
#[derive(Clone, Copy, Debug, PartialEq, Eq)]
pub enum TimeKind {
    /// `HH:MM:SS`
    HhMmSs,
    /// `HHH:MM:SS`
    HhhMmSs,
    /// `HH:MM:SS.f`, with one to six digits after the point
    HhMmSsMs,
    /// `HHH:MM:SS.f`, with one to six digits after the point
    HhhMmSsMs,
}

/// The number written by the digits of `s` from `from` up to `to`.
pub open spec fn field(s: Seq<u8>, from: int, to: int) -> u32 {
    decimal_value(s.subrange(from, to)) as u32
}

/// A run of `n` zero digits.
pub open spec fn zeros(n: nat) -> Seq<u8> {
    Seq::new(n, |i: int| 0x30u8)
}

/// The microseconds that the digits after the decimal point stand for: the
/// digits are padded with zeros on the right to six places and read as one
/// number.
pub open spec fn micros_value(fraction: Seq<u8>) -> nat {
    decimal_value(fraction + zeros((6 - fraction.len()) as nat))
}

/// `YYYY-MM-DD` at the start of `s`.
pub open spec fn date_shape(s: Seq<u8>) -> bool {
    &&& s.len() >= 10
    &&& digits_in(s, 0, 4)
    &&& s[4] == DASH
    &&& digits_in(s, 5, 7)
    &&& s[7] == DASH
    &&& digits_in(s, 8, 10)
}

/// `YYYY-MM-DD HH:MM:SS` at the start of `s`.
pub open spec fn datetime_shape(s: Seq<u8>) -> bool {
    &&& s.len() >= 19
    &&& date_shape(s)
    &&& s[10] == SPACE
    &&& digits_in(s, 11, 13)
    &&& s[13] == COLON
    &&& digits_in(s, 14, 16)
    &&& s[16] == COLON
    &&& digits_in(s, 17, 19)
}

/// A decimal point at `dot`, followed by one to six digits that end `s`.
pub open spec fn fraction_at(s: Seq<u8>, dot: int) -> bool {
    &&& dot + 2 <= s.len() <= dot + 7
    &&& s[dot] == DOT
    &&& digits_in(s, dot + 1, s.len() as int)
}

/// The layout of `s`, if it has one of the three.
pub open spec fn datetime_kind(s: Seq<u8>) -> Option<DateTimeKind> {
    if s.len() == 10 && date_shape(s) {
        Some(DateTimeKind::Ymd)
    } else if s.len() == 19 && datetime_shape(s) {
        Some(DateTimeKind::YmdHms)
    } else if datetime_shape(s) && fraction_at(s, 19) {
        Some(DateTimeKind::YmdHmsMs)
    } else {
        None
    }
}

/// Year, month, day, hour, minute, second and microsecond as `s` writes
/// them. A field that the layout of `s` lacks is 0.
pub open spec fn datetime_fields(s: Seq<u8>) -> Option<(u32, u32, u32, u32, u32, u32, u32)> {
    match datetime_kind(s) {
        None => None,
        Some(kind) => Some(
            (
                field(s, 0, 4),
                field(s, 5, 7),
                field(s, 8, 10),
                if kind is Ymd { 0 } else { field(s, 11, 13) },
                if kind is Ymd { 0 } else { field(s, 14, 16) },
                if kind is Ymd { 0 } else { field(s, 17, 19) },
                if kind is YmdHmsMs {
                    micros_value(s.subrange(20, s.len() as int)) as u32
                } else {
                    0
                },
            ),
        ),
    }
}

/// `:MM:SS` at `at`, with minutes and seconds from 00 to 59.
pub open spec fn minutes_seconds_at(s: Seq<u8>, at: int) -> bool {
    &&& s.len() >= at + 6
    &&& s[at] == COLON
    &&& 0x30 <= s[at + 1] <= 0x35
    &&& is_digit(s[at + 2])
    &&& s[at + 3] == COLON
    &&& 0x30 <= s[at + 4] <= 0x35
    &&& is_digit(s[at + 5])
}

/// `HH:MM:SS` at the start of `s`.
pub open spec fn hh_shape(s: Seq<u8>) -> bool {
    &&& s.len() >= 8
    &&& digits_in(s, 0, 2)
    &&& minutes_seconds_at(s, 2)
}

/// `HHH:MM:SS` at the start of `s`, with hours from 000 to 899.
pub open spec fn hhh_shape(s: Seq<u8>) -> bool {
    &&& s.len() >= 9
    &&& 0x30 <= s[0] <= 0x38
    &&& digits_in(s, 1, 3)
    &&& minutes_seconds_at(s, 3)
}

/// The layout of `s`, if it has one of the four.
pub open spec fn time_kind(s: Seq<u8>) -> Option<TimeKind> {
    if s.len() == 8 && hh_shape(s) {
        Some(TimeKind::HhMmSs)
    } else if s.len() == 9 && hhh_shape(s) {
        Some(TimeKind::HhhMmSs)
    } else if hh_shape(s) && fraction_at(s, 8) {
        Some(TimeKind::HhMmSsMs)
    } else if hhh_shape(s) && fraction_at(s, 9) {
        Some(TimeKind::HhhMmSsMs)
    } else {
        None
    }
}

/// The number of digits that a layout gives to the hours.
pub open spec fn hour_width(kind: TimeKind) -> int {
    match kind {
        TimeKind::HhMmSs | TimeKind::HhMmSsMs => 2,
        TimeKind::HhhMmSs | TimeKind::HhhMmSsMs => 3,
    }
}

/// Hours, minutes, seconds and microseconds as `s` writes them in the layout `kind`.
pub open spec fn unsigned_time_fields(s: Seq<u8>, kind: TimeKind) -> (u32, u32, u32, u32) {
    let w = hour_width(kind);
    (
        field(s, 0, w),
        field(s, w + 1, w + 3),
        field(s, w + 4, w + 6),
        if kind is HhMmSsMs || kind is HhhMmSsMs {
            micros_value(s.subrange(w + 7, s.len() as int)) as u32
        } else {
            0
        },
    )
}

/// Sign, hours, minutes, seconds and microseconds as `s` writes them. The
/// sign is `true` where `s` begins with a minus; what follows it must have
/// one of the four layouts. A text of fewer than eight bytes writes nothing.
pub open spec fn time_fields(s: Seq<u8>) -> Option<(bool, u32, u32, u32, u32)> {
    if s.len() < 8 {
        None
    } else {
        let negative = s[0] == DASH;
        let rest = if negative { s.subrange(1, s.len() as int) } else { s };
        match time_kind(rest) {
            None => None,
            Some(kind) => {
                let (h, m, sec, micros) = unsigned_time_fields(rest, kind);
                Some((negative, h, m, sec, micros))
            },
        }
    }
}

/// The powers of ten that six digits can reach.
pub proof fn lemma_pow10_values()
    ensures
        pow10(0) == 1,
        pow10(1) == 10,
        pow10(2) == 100,
        pow10(3) == 1_000,
        pow10(4) == 10_000,
        pow10(5) == 100_000,
        pow10(6) == 1_000_000,
{
    reveal_with_fuel(pow10, 7);
}

/// One more zero on the right multiplies the number by ten.
pub proof fn lemma_zero_on_the_right(s: Seq<u8>, n: nat)
    ensures
        decimal_value(s + zeros(n + 1)) == decimal_value(s + zeros(n)) * 10,
{
    let longer = s + zeros(n + 1);
    assert(longer.drop_last() =~= s + zeros(n));
}

/// Zeros on the right multiply the number by a power of ten.
pub proof fn lemma_padding_scales(s: Seq<u8>, n: nat)
    ensures
        decimal_value(s + zeros(n)) == decimal_value(s) * pow10(n),
    decreases n,
{
    let a = decimal_value(s);
    if n == 0 {
        assert(a * 1 == a);
    } else {
        let m = (n - 1) as nat;
        lemma_padding_scales(s, m);
        lemma_zero_on_the_right(s, m);
        let b = pow10(m);
        assert((a * b) * 10 == a * (10 * b)) by (nonlinear_arith);
    }
}

/// From one to six digits after the decimal point stand for the number that
/// they write, times ten for each place that is missing to six.
pub proof fn lemma_micros_scaling(fraction: Seq<u8>)
    requires
        fraction.len() <= 6,
    ensures
        micros_value(fraction) == decimal_value(fraction) * pow10((6 - fraction.len()) as nat),
{
    lemma_padding_scales(fraction, (6 - fraction.len()) as nat);
}

/// Reads the digits after a decimal point as microseconds.
pub fn parse_micros(micros_bytes: &[u8]) -> (micros: u32)
    requires
        all_digits(micros_bytes@),
        1 <= micros_bytes@.len() <= 6,
    ensures
        micros == micros_value(micros_bytes@),
        micros < 1_000_000,
{
    let len: usize = micros_bytes.len();
    let mut micros: u32 = parse_digits(micros_bytes);
    let mut n: usize = len;
    proof {
        lemma_decimal_value_bound(micros_bytes@);
        lemma_pow10_values();
    }
    while n < 6
        invariant
            len == micros_bytes@.len(),
            1 <= len <= n <= 6,
            all_digits(micros_bytes@),
            micros == decimal_value(micros_bytes@ + zeros((n - len) as nat)),
            micros < pow10(n as nat),
        decreases 6 - n,
    {
        proof {
            lemma_zero_on_the_right(micros_bytes@, (n - len) as nat);
            lemma_pow10_values();
        }
        micros = micros * 10;
        n += 1;
    }
    proof {
        lemma_pow10_values();
    }
    micros
}

/// Tests for `YYYY-MM-DD` at the start of `text`.
fn date_shaped(text: &[u8]) -> (r: bool)
    requires
        text@.len() >= 10,
    ensures
        r == date_shape(text@),
{
    digits_between(text, 0, 4) && text[4] == DASH && digits_between(text, 5, 7) && text[7] == DASH
        && digits_between(text, 8, 10)
}

/// Tests for `YYYY-MM-DD HH:MM:SS` at the start of `text`.
fn datetime_shaped(text: &[u8]) -> (r: bool)
    requires
        text@.len() >= 19,
    ensures
        r == datetime_shape(text@),
{
    date_shaped(text) && text[10] == SPACE && digits_between(text, 11, 13) && text[13] == COLON
        && digits_between(text, 14, 16) && text[16] == COLON && digits_between(text, 17, 19)
}

/// Tests for a decimal point at `dot` and one to six digits up to the end of `text`.
fn fraction_from(text: &[u8], dot: usize) -> (r: bool)
    requires
        dot <= text@.len(),
    ensures
        r == fraction_at(text@, dot as int),
{
    let len: usize = text.len();
    len - dot >= 2 && len - dot <= 7 && text[dot] == DOT && digits_between(text, dot + 1, len)
}

/// Finds the layout of a date with or without a time of day.
pub fn datetime_kind_of(text: &[u8]) -> (r: Option<DateTimeKind>)
    ensures
        r == datetime_kind(text@),
{
    let len: usize = text.len();
    if len == 10 && date_shaped(text) {
        Some(DateTimeKind::Ymd)
    } else if len == 19 && datetime_shaped(text) {
        Some(DateTimeKind::YmdHms)
    } else if 20 < len && len < 27 && datetime_shaped(text) && fraction_from(text, 19) {
        Some(DateTimeKind::YmdHmsMs)
    } else {
        None
    }
}

/// Reads the digits of `text` from `from` up to `to`.
fn read_field(text: &[u8], from: usize, to: usize) -> (r: u32)
    requires
        from <= to <= text@.len(),
        to - from <= 9,
        digits_in(text@, from as int, to as int),
    ensures
        r == field(text@, from as int, to as int),
        r < pow10((to - from) as nat),
{
    let digits: &[u8] = &text[from..to];
    proof {
        lemma_decimal_value_bound(digits@);
        lemma_pow10_nine(digits@.len());
    }
    parse_digits(digits)
}

/// Ten to a power of at most nine fits in 32 bits.
proof fn lemma_pow10_nine(n: nat)
    requires
        n <= 9,
    ensures
        pow10(n) <= 1_000_000_000,
{
    reveal_with_fuel(pow10, 10);
}

/// Reads a date with or without a time of day.
///
/// Returns year, month, day, hour, minute, second and microsecond, or `None`
/// where the text has none of the three layouts.
pub fn parse_mysql_datetime_string(bytes: &[u8]) -> (r: Option<(u32, u32, u32, u32, u32, u32, u32)>)
    ensures
        r == datetime_fields(bytes@),
        r matches Some(f) ==> f.0 < 10_000 && f.1 < 100 && f.2 < 100 && f.3 < 100 && f.4 < 100
            && f.5 < 100 && f.6 < 1_000_000,
{
    proof {
        lemma_pow10_values();
    }
    let kind = match datetime_kind_of(bytes) {
        Some(kind) => kind,
        None => {
            return None;
        },
    };
    let year: u32 = read_field(bytes, 0, 4);
    let month: u32 = read_field(bytes, 5, 7);
    let day: u32 = read_field(bytes, 8, 10);
    match kind {
        DateTimeKind::Ymd => Some((year, month, day, 0, 0, 0, 0)),
        DateTimeKind::YmdHms => {
            let hour: u32 = read_field(bytes, 11, 13);
            let minute: u32 = read_field(bytes, 14, 16);
            let second: u32 = read_field(bytes, 17, 19);
            Some((year, month, day, hour, minute, second, 0))
        },
        DateTimeKind::YmdHmsMs => {
            let hour: u32 = read_field(bytes, 11, 13);
            let minute: u32 = read_field(bytes, 14, 16);
            let second: u32 = read_field(bytes, 17, 19);
            let micros: u32 = parse_micros(&bytes[20..bytes.len()]);
            Some((year, month, day, hour, minute, second, micros))
        },
    }
}

/// Tests for `:MM:SS` at `at`, with minutes and seconds from 00 to 59.
fn minutes_seconds_from(text: &[u8], at: usize) -> (r: bool)
    requires
        at + 6 <= text@.len(),
    ensures
        r == minutes_seconds_at(text@, at as int),
{
    text[at] == COLON && 0x30 <= text[at + 1] && text[at + 1] <= 0x35 && digits_between(
        text,
        at + 2,
        at + 3,
    ) && text[at + 3] == COLON && 0x30 <= text[at + 4] && text[at + 4] <= 0x35 && digits_between(
        text,
        at + 5,
        at + 6,
    )
}

/// Tests for `HH:MM:SS` at the start of `text`.
fn hh_shaped(text: &[u8]) -> (r: bool)
    requires
        text@.len() >= 8,
    ensures
        r == hh_shape(text@),
{
    digits_between(text, 0, 2) && minutes_seconds_from(text, 2)
}

/// Tests for `HHH:MM:SS` at the start of `text`, with hours from 000 to 899.
fn hhh_shaped(text: &[u8]) -> (r: bool)
    requires
        text@.len() >= 9,
    ensures
        r == hhh_shape(text@),
{
    0x30 <= text[0] && text[0] <= 0x38 && digits_between(text, 1, 3) && minutes_seconds_from(
        text,
        3,
    )
}

/// Finds the layout of a duration without its sign.
pub fn time_kind_of(text: &[u8]) -> (r: Option<TimeKind>)
    ensures
        r == time_kind(text@),
{
    let len: usize = text.len();
    if len == 8 && hh_shaped(text) {
        Some(TimeKind::HhMmSs)
    } else if len == 9 && hhh_shaped(text) {
        Some(TimeKind::HhhMmSs)
    } else if len >= 8 && hh_shaped(text) && fraction_from(text, 8) {
        Some(TimeKind::HhMmSsMs)
    } else if len >= 9 && hhh_shaped(text) && fraction_from(text, 9) {
        Some(TimeKind::HhhMmSsMs)
    } else {
        None
    }
}

/// Reads a duration.
///
/// Returns the sign (`true` for a leading minus), hours, minutes, seconds
/// and microseconds, or `None` where the text is shorter than eight bytes or
/// what follows the sign has none of the four layouts.
pub fn parse_mysql_time_string(bytes: &[u8]) -> (r: Option<(bool, u32, u32, u32, u32)>)
    ensures
        r == time_fields(bytes@),
        r matches Some(f) ==> f.1 < 1_000 && f.2 < 100 && f.3 < 100 && f.4 < 1_000_000,
{
    proof {
        lemma_pow10_values();
    }
    if bytes.len() < 8 {
        return None;
    }
    let is_neg: bool = bytes[0] == DASH;
    let rest: &[u8] = if is_neg { &bytes[1..bytes.len()] } else { bytes };
    let kind = match time_kind_of(rest) {
        Some(kind) => kind,
        None => {
            return None;
        },
    };
    let (width, has_micros): (usize, bool) = match kind {
        TimeKind::HhMmSs => (2, false),
        TimeKind::HhMmSsMs => (2, true),
        TimeKind::HhhMmSs => (3, false),
        TimeKind::HhhMmSsMs => (3, true),
    };
    let hours: u32 = read_field(rest, 0, width);
    let minutes: u32 = read_field(rest, width + 1, width + 3);
    let seconds: u32 = read_field(rest, width + 4, width + 6);
    let micros: u32 = if has_micros {
        parse_micros(&rest[width + 7..rest.len()])
    } else {
        0
    };
    Some((is_neg, hours, minutes, seconds, micros))
}

} // verus!
