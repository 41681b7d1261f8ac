//! Dates and durations written as text, and the proof that reading the text
//! gives back what was written.

use crate::value::digits::{all_digits, decimal_value, digits_in, is_digit, pow10};
use crate::value::temporal::{
    date_shape, datetime_fields, datetime_kind, field, fraction_at, hh_shape, hhh_shape,
    lemma_pow10_values, micros_value, minutes_seconds_at, time_fields, time_kind, zeros,
    DateTimeKind, TimeKind, COLON, DASH, DOT, SPACE,
};
use vstd::prelude::*;

verus! {

/// The lowest `width` decimal digits of `n`, highest first.
pub open spec fn zero_padded(n: nat, width: nat) -> Seq<u8>
    decreases width,
{
    if width == 0 {
        Seq::empty()
    } else {
        zero_padded(n / 10, (width - 1) as nat).push((0x30 + n % 10) as u8)
    }
}

/// `YYYY-MM-DD`
pub open spec fn date_text(year: nat, month: nat, day: nat) -> Seq<u8> {
    zero_padded(year, 4) + seq![DASH] + zero_padded(month, 2) + seq![DASH] + zero_padded(day, 2)
}

/// `HH:MM:SS`
pub open spec fn clock_text(hour: nat, minute: nat, second: nat) -> Seq<u8> {
    zero_padded(hour, 2) + seq![COLON] + zero_padded(minute, 2) + seq![COLON] + zero_padded(
        second,
        2,
    )
}

/// `YYYY-MM-DD HH:MM:SS`
pub open spec fn datetime_text(
    year: nat,
    month: nat,
    day: nat,
    hour: nat,
    minute: nat,
    second: nat,
) -> Seq<u8> {
    date_text(year, month, day) + seq![SPACE] + clock_text(hour, minute, second)
}

/// `.ffffff`
pub open spec fn fraction_text(micros: nat) -> Seq<u8> {
    seq![DOT] + zero_padded(micros, 6)
}

/// `:MM:SS`
pub open spec fn minutes_seconds_text(minutes: nat, seconds: nat) -> Seq<u8> {
    seq![COLON] + zero_padded(minutes, 2) + seq![COLON] + zero_padded(seconds, 2)
}

/// A duration without sign and fraction: the hours with two digits, or with
/// three from 100 hours on, then `:MM:SS`.
pub open spec fn unsigned_time_text(hours: nat, minutes: nat, seconds: nat) -> Seq<u8> {
    let hh = if hours < 100 { zero_padded(hours, 2) } else { zero_padded(hours, 3) };
    hh + minutes_seconds_text(minutes, seconds)
}

/// A duration without a fraction: a minus where it is negative, then
/// `HH:MM:SS` or `HHH:MM:SS`.
pub open spec fn time_text(negative: bool, hours: nat, minutes: nat, seconds: nat) -> Seq<u8> {
    let sign = if negative { seq![DASH] } else { Seq::<u8>::empty() };
    sign + unsigned_time_text(hours, minutes, seconds)
}

/// `zero_padded(n, width)` has `width` digits, and they write `n` where `n`
/// has no more digits than that.
pub proof fn lemma_zero_padded(n: nat, width: nat)
    ensures
        zero_padded(n, width).len() == width,
        all_digits(zero_padded(n, width)),
        n < pow10(width) ==> decimal_value(zero_padded(n, width)) == n,
        width > 0 ==> zero_padded(n, width).last() == 0x30 + n % 10,
        width > 0 ==> zero_padded(n, width).drop_last() == zero_padded(n / 10, (width - 1) as nat),
    decreases width,
{
    if width > 0 {
        let shorter = zero_padded(n / 10, (width - 1) as nat);
        lemma_zero_padded(n / 10, (width - 1) as nat);
        assert(zero_padded(n, width).drop_last() =~= shorter);
    }
}

/// The first of two digits is the tens, the first of three the hundreds.
pub proof fn lemma_leading_digit(n: nat)
    ensures
        zero_padded(n, 2)[0] == 0x30 + (n / 10) % 10,
        zero_padded(n, 3)[0] == 0x30 + (n / 100) % 10,
{
    reveal_with_fuel(zero_padded, 4);
}

/// Where the bytes of `t` from `at` on are `n` written with `width` digits,
/// they read as `n`.
pub proof fn lemma_written_field(t: Seq<u8>, at: int, n: nat, width: nat)
    requires
        0 <= at,
        at + width <= t.len(),
        t.subrange(at, at + width) == zero_padded(n, width),
        n < pow10(width),
        width <= 9,
    ensures
        digits_in(t, at, at + width),
        field(t, at, at + width) == n,
{
    lemma_zero_padded(n, width);
    let piece = t.subrange(at, at + width);
    assert forall|i: int| at <= i < at + width implies is_digit(#[trigger] t[i]) by {
        assert(t[i] == piece[i - at]);
    }
    reveal_with_fuel(pow10, 10);
}

/// A part of a part: where `t` holds `c` at `at`, it holds each stretch of
/// `c` at the place that follows from that.
proof fn lemma_piece(t: Seq<u8>, at: int, c: Seq<u8>, from: int, to: int)
    requires
        0 <= at,
        at + c.len() <= t.len(),
        t.subrange(at, at + c.len()) == c,
        0 <= from <= to <= c.len(),
    ensures
        t.subrange(at + from, at + to) == c.subrange(from, to),
        from < to ==> t[at + from] == c[from],
{
    assert forall|i: int| 0 <= i < to - from implies t.subrange(at + from, at + to)[i]
        == c.subrange(from, to)[i] by {}
}

/// The parts of a written date.
proof fn lemma_date_text(year: nat, month: nat, day: nat)
    ensures
        date_text(year, month, day).len() == 10,
        date_text(year, month, day).subrange(0, 4) == zero_padded(year, 4),
        date_text(year, month, day).subrange(4, 5) == seq![DASH],
        date_text(year, month, day).subrange(5, 7) == zero_padded(month, 2),
        date_text(year, month, day).subrange(7, 8) == seq![DASH],
        date_text(year, month, day).subrange(8, 10) == zero_padded(day, 2),
{
    lemma_zero_padded(year, 4);
    lemma_zero_padded(month, 2);
    lemma_zero_padded(day, 2);
}

/// The parts of a written time of day.
proof fn lemma_clock_text(hour: nat, minute: nat, second: nat)
    ensures
        clock_text(hour, minute, second).len() == 8,
        clock_text(hour, minute, second).subrange(0, 2) == zero_padded(hour, 2),
        clock_text(hour, minute, second).subrange(2, 3) == seq![COLON],
        clock_text(hour, minute, second).subrange(3, 5) == zero_padded(minute, 2),
        clock_text(hour, minute, second).subrange(5, 6) == seq![COLON],
        clock_text(hour, minute, second).subrange(6, 8) == zero_padded(second, 2),
{
    lemma_zero_padded(hour, 2);
    lemma_zero_padded(minute, 2);
    lemma_zero_padded(second, 2);
}

/// A text that holds a written date at its start has the shape of a date,
/// and its first three fields are year, month and day.
proof fn lemma_date_part(t: Seq<u8>, year: nat, month: nat, day: nat)
    requires
        year < 10_000,
        month < 100,
        day < 100,
        t.len() >= 10,
        t.subrange(0, 10) == date_text(year, month, day),
    ensures
        date_shape(t),
        field(t, 0, 4) == year,
        field(t, 5, 7) == month,
        field(t, 8, 10) == day,
{
    let d = date_text(year, month, day);
    lemma_date_text(year, month, day);
    lemma_pow10_values();
    lemma_piece(t, 0, d, 0, 4);
    lemma_piece(t, 0, d, 4, 5);
    lemma_piece(t, 0, d, 5, 7);
    lemma_piece(t, 0, d, 7, 8);
    lemma_piece(t, 0, d, 8, 10);
    lemma_written_field(t, 0, year, 4);
    lemma_written_field(t, 5, month, 2);
    lemma_written_field(t, 8, day, 2);
}

/// A text that holds a written time of day at `at` has digits and colons
/// there, and the three fields read as hour, minute and second.
proof fn lemma_clock_part(t: Seq<u8>, at: int, hour: nat, minute: nat, second: nat)
    requires
        hour < 100,
        minute < 100,
        second < 100,
        0 <= at,
        t.len() >= at + 8,
        t.subrange(at, at + 8) == clock_text(hour, minute, second),
    ensures
        digits_in(t, at, at + 2),
        t[at + 2] == COLON,
        digits_in(t, at + 3, at + 5),
        t[at + 5] == COLON,
        digits_in(t, at + 6, at + 8),
        field(t, at, at + 2) == hour,
        field(t, at + 3, at + 5) == minute,
        field(t, at + 6, at + 8) == second,
        t[at + 3] == 0x30 + (minute / 10) % 10,
        t[at + 6] == 0x30 + (second / 10) % 10,
{
    let c = clock_text(hour, minute, second);
    lemma_clock_text(hour, minute, second);
    lemma_leading_digit(minute);
    lemma_leading_digit(second);
    lemma_pow10_values();
    lemma_piece(t, at, c, 0, 2);
    lemma_piece(t, at, c, 2, 3);
    lemma_piece(t, at, c, 3, 5);
    lemma_piece(t, at, c, 5, 6);
    lemma_piece(t, at, c, 6, 8);
    lemma_written_field(t, at, hour, 2);
    lemma_written_field(t, at + 3, minute, 2);
    lemma_written_field(t, at + 6, second, 2);
}

/// A text that ends in a written fraction at `dot` has a fraction there, and
/// it reads as the microseconds that were written.
proof fn lemma_fraction_part(t: Seq<u8>, dot: int, micros: nat)
    requires
        micros < 1_000_000,
        0 <= dot,
        t.len() == dot + 7,
        t.subrange(dot, dot + 7) == fraction_text(micros),
    ensures
        fraction_at(t, dot),
        micros_value(t.subrange(dot + 1, t.len() as int)) == micros,
{
    lemma_zero_padded(micros, 6);
    lemma_pow10_values();
    let f = fraction_text(micros);
    assert(f.subrange(1, 7) =~= zero_padded(micros, 6));
    lemma_piece(t, dot, f, 0, 1);
    lemma_piece(t, dot, f, 1, 7);
    lemma_written_field(t, dot + 1, micros, 6);
}

/// Reading a written date gives back year, month and day, with the time of
/// day at zero.
pub proof fn lemma_date_round_trip(year: nat, month: nat, day: nat)
    requires
        year < 10_000,
        month < 100,
        day < 100,
    ensures
        datetime_fields(date_text(year, month, day)) == Some(
            (year as u32, month as u32, day as u32, 0u32, 0u32, 0u32, 0u32),
        ),
{
    let t = date_text(year, month, day);
    lemma_date_text(year, month, day);
    assert(t.subrange(0, 10) =~= t);
    lemma_date_part(t, year, month, day);
}

/// Reading a written date and time of day gives back what was written: with
/// the microseconds at zero where no fraction was written, and with the
/// microseconds that were written where one was.
pub proof fn lemma_datetime_round_trip(
    year: nat,
    month: nat,
    day: nat,
    hour: nat,
    minute: nat,
    second: nat,
    micros: nat,
)
    requires
        year < 10_000,
        month < 100,
        day < 100,
        hour < 100,
        minute < 100,
        second < 100,
        micros < 1_000_000,
    ensures
        datetime_fields(datetime_text(year, month, day, hour, minute, second)) == Some(
            (
                year as u32,
                month as u32,
                day as u32,
                hour as u32,
                minute as u32,
                second as u32,
                0u32,
            ),
        ),
        datetime_fields(
            datetime_text(year, month, day, hour, minute, second) + fraction_text(micros),
        ) == Some(
            (
                year as u32,
                month as u32,
                day as u32,
                hour as u32,
                minute as u32,
                second as u32,
                micros as u32,
            ),
        ),
{
    lemma_date_text(year, month, day);
    lemma_clock_text(hour, minute, second);
    lemma_zero_padded(micros, 6);
    let t = datetime_text(year, month, day, hour, minute, second);
    assert(t.subrange(0, 10) =~= date_text(year, month, day));
    assert(t.subrange(11, 19) =~= clock_text(hour, minute, second));
    lemma_date_part(t, year, month, day);
    lemma_clock_part(t, 11, hour, minute, second);

    let u = t + fraction_text(micros);
    assert(u.subrange(0, 10) =~= date_text(year, month, day));
    assert(u.subrange(11, 19) =~= clock_text(hour, minute, second));
    assert(u.subrange(19, 26) =~= fraction_text(micros));
    lemma_date_part(u, year, month, day);
    lemma_clock_part(u, 11, hour, minute, second);
    lemma_fraction_part(u, 19, micros);
}

/// A text that holds written minutes and seconds at `at` has the shape of
/// them there, and the two fields read as what was written.
proof fn lemma_minutes_seconds_part(t: Seq<u8>, at: int, minutes: nat, seconds: nat)
    requires
        minutes < 60,
        seconds < 60,
        0 <= at,
        t.len() >= at + 6,
        t.subrange(at, at + 6) == minutes_seconds_text(minutes, seconds),
    ensures
        minutes_seconds_at(t, at),
        digits_in(t, at + 1, at + 3),
        digits_in(t, at + 4, at + 6),
        field(t, at + 1, at + 3) == minutes,
        field(t, at + 4, at + 6) == seconds,
{
    let c = minutes_seconds_text(minutes, seconds);
    lemma_zero_padded(minutes, 2);
    lemma_zero_padded(seconds, 2);
    lemma_leading_digit(minutes);
    lemma_leading_digit(seconds);
    lemma_pow10_values();
    assert(c.subrange(1, 3) =~= zero_padded(minutes, 2));
    assert(c.subrange(4, 6) =~= zero_padded(seconds, 2));
    lemma_piece(t, at, c, 0, 1);
    lemma_piece(t, at, c, 1, 3);
    lemma_piece(t, at, c, 3, 4);
    lemma_piece(t, at, c, 4, 6);
    lemma_written_field(t, at + 1, minutes, 2);
    lemma_written_field(t, at + 4, seconds, 2);
}

/// A text that begins with a written duration without sign has the shape
/// that the number of hours calls for, and its fields read as what was written.
proof fn lemma_unsigned_time_part(t: Seq<u8>, hours: nat, minutes: nat, seconds: nat)
    requires
        hours < 900,
        minutes < 60,
        seconds < 60,
        t.len() >= unsigned_time_text(hours, minutes, seconds).len(),
        t.subrange(0, unsigned_time_text(hours, minutes, seconds).len() as int)
            == unsigned_time_text(hours, minutes, seconds),
    ensures
        unsigned_time_text(hours, minutes, seconds).len() == if hours < 100 { 8int } else { 9int },
        hours < 100 ==> hh_shape(t) && field(t, 0, 2) == hours && field(t, 3, 5) == minutes
            && field(t, 6, 8) == seconds,
        hours >= 100 ==> hhh_shape(t) && !hh_shape(t) && field(t, 0, 3) == hours && field(t, 4, 6)
            == minutes && field(t, 7, 9) == seconds,
        t[0] != DASH,
{
    let c = unsigned_time_text(hours, minutes, seconds);
    let tail = minutes_seconds_text(minutes, seconds);
    lemma_zero_padded(minutes, 2);
    lemma_zero_padded(seconds, 2);
    lemma_zero_padded(hours, 2);
    lemma_zero_padded(hours, 3);
    lemma_leading_digit(hours);
    lemma_pow10_values();
    if hours < 100 {
        assert(c.subrange(0, 2) =~= zero_padded(hours, 2));
        assert(c.subrange(2, 8) =~= tail);
        lemma_piece(t, 0, c, 0, 2);
        lemma_piece(t, 0, c, 2, 8);
        lemma_written_field(t, 0, hours, 2);
        lemma_minutes_seconds_part(t, 2, minutes, seconds);
    } else {
        assert(c.subrange(0, 3) =~= zero_padded(hours, 3));
        assert(c.subrange(3, 9) =~= tail);
        lemma_piece(t, 0, c, 0, 3);
        lemma_piece(t, 0, c, 3, 9);
        lemma_piece(t, 0, c, 2, 3);
        lemma_written_field(t, 0, hours, 3);
        lemma_minutes_seconds_part(t, 3, minutes, seconds);
    }
}

/// Reading a written duration gives back its sign, hours, minutes and
/// seconds: with the microseconds at zero where no fraction was written, and
/// with the microseconds that were written where one was.
pub proof fn lemma_time_round_trip(
    negative: bool,
    hours: nat,
    minutes: nat,
    seconds: nat,
    micros: nat,
)
    requires
        hours < 900,
        minutes < 60,
        seconds < 60,
        micros < 1_000_000,
    ensures
        time_fields(time_text(negative, hours, minutes, seconds)) == Some(
            (negative, hours as u32, minutes as u32, seconds as u32, 0u32),
        ),
        time_fields(time_text(negative, hours, minutes, seconds) + fraction_text(micros)) == Some(
            (negative, hours as u32, minutes as u32, seconds as u32, micros as u32),
        ),
{
    let body = unsigned_time_text(hours, minutes, seconds);
    let t = time_text(negative, hours, minutes, seconds);
    let u = t + fraction_text(micros);
    let long = body + fraction_text(micros);
    let w: int = if hours < 100 { 2 } else { 3 };
    lemma_zero_padded(micros, 6);
    assert(body.subrange(0, body.len() as int) =~= body);
    lemma_unsigned_time_part(body, hours, minutes, seconds);
    assert(long.subrange(0, body.len() as int) =~= body);
    lemma_unsigned_time_part(long, hours, minutes, seconds);
    assert(long.subrange(w + 6, w + 13) =~= fraction_text(micros));
    lemma_fraction_part(long, w + 6, micros);
    if negative {
        assert(t.subrange(1, t.len() as int) =~= body);
        assert(u.subrange(1, u.len() as int) =~= long);
    } else {
    }
}

} // verus!
