//! What holds of conversion in both directions.

use crate::value::convert::temporal::{
    calendar_date, calendar_datetime, signed_span, span_micros, time_of_day,
};
use crate::value::convert::to_value::{
    date_value, datetime_value, signed_duration_value, time_of_day_value, ToValue,
};
use crate::value::convert::{ConvIr, FromValue, OptionIr, ParseIr};
use crate::value::convert::numeric::{signed_integer, unsigned_integer, within};
use crate::value::datetime::{is_calendar_date, is_time_of_day};
use crate::value::digits::{decimal_integer, MINUS};
use crate::value::ValueView;
use vstd::prelude::*;

verus! {

/// `NULL` converts to `None`, whatever `T` is, and nothing else does: a
/// conversion that gave `None` started from `NULL`, and one that gave
/// `Some` started from another value, which converts to what is in the `Some`.
pub proof fn lemma_option_conversion<T: FromValue>(v: ValueView, t: Option<T>)
    ensures
        <OptionIr<T::Intermediate> as ConvIr<Option<T>>>::accepts(ValueView::Null),
        <OptionIr<T::Intermediate> as ConvIr<Option<T>>>::yields(ValueView::Null, t) <==> t is None,
        <OptionIr<T::Intermediate> as ConvIr<Option<T>>>::yields(v, t) && t is None ==> v is Null,
        <OptionIr<T::Intermediate> as ConvIr<Option<T>>>::yields(v, t) && t is Some ==> !(v is Null)
            && <T::Intermediate as ConvIr<T>>::yields(v, t->0),
{
}

/// An `i8` that was sent as a value converts back to itself and to no
/// other number, so that sending it again gives the same value.
pub proof fn lemma_round_trip_i8(x: i8)
    ensures
        <ParseIr<i8> as ConvIr<i8>>::accepts(x.encoding()),
        forall|t: i8|
            <ParseIr<i8> as ConvIr<i8>>::yields(x.encoding(), t) <==> t == x,
        forall|t: i8|
            <ParseIr<i8> as ConvIr<i8>>::yields(x.encoding(), t) ==> t.encoding()
                == x.encoding(),
{
}

/// An `u8` that was sent as a value converts back to itself and to no
/// other number, so that sending it again gives the same value.
pub proof fn lemma_round_trip_u8(x: u8)
    ensures
        <ParseIr<u8> as ConvIr<u8>>::accepts(x.encoding()),
        forall|t: u8|
            <ParseIr<u8> as ConvIr<u8>>::yields(x.encoding(), t) <==> t == x,
        forall|t: u8|
            <ParseIr<u8> as ConvIr<u8>>::yields(x.encoding(), t) ==> t.encoding()
                == x.encoding(),
{
}

/// An `i16` that was sent as a value converts back to itself and to no
/// other number, so that sending it again gives the same value.
pub proof fn lemma_round_trip_i16(x: i16)
    ensures
        <ParseIr<i16> as ConvIr<i16>>::accepts(x.encoding()),
        forall|t: i16|
            <ParseIr<i16> as ConvIr<i16>>::yields(x.encoding(), t) <==> t == x,
        forall|t: i16|
            <ParseIr<i16> as ConvIr<i16>>::yields(x.encoding(), t) ==> t.encoding()
                == x.encoding(),
{
}

/// An `u16` that was sent as a value converts back to itself and to no
/// other number, so that sending it again gives the same value.
pub proof fn lemma_round_trip_u16(x: u16)
    ensures
        <ParseIr<u16> as ConvIr<u16>>::accepts(x.encoding()),
        forall|t: u16|
            <ParseIr<u16> as ConvIr<u16>>::yields(x.encoding(), t) <==> t == x,
        forall|t: u16|
            <ParseIr<u16> as ConvIr<u16>>::yields(x.encoding(), t) ==> t.encoding()
                == x.encoding(),
{
}

/// An `i32` that was sent as a value converts back to itself and to no
/// other number, so that sending it again gives the same value.
pub proof fn lemma_round_trip_i32(x: i32)
    ensures
        <ParseIr<i32> as ConvIr<i32>>::accepts(x.encoding()),
        forall|t: i32|
            <ParseIr<i32> as ConvIr<i32>>::yields(x.encoding(), t) <==> t == x,
        forall|t: i32|
            <ParseIr<i32> as ConvIr<i32>>::yields(x.encoding(), t) ==> t.encoding()
                == x.encoding(),
{
}

/// An `u32` that was sent as a value converts back to itself and to no
/// other number, so that sending it again gives the same value.
pub proof fn lemma_round_trip_u32(x: u32)
    ensures
        <ParseIr<u32> as ConvIr<u32>>::accepts(x.encoding()),
        forall|t: u32|
            <ParseIr<u32> as ConvIr<u32>>::yields(x.encoding(), t) <==> t == x,
        forall|t: u32|
            <ParseIr<u32> as ConvIr<u32>>::yields(x.encoding(), t) ==> t.encoding()
                == x.encoding(),
{
}

/// An `i64` that was sent as a value converts back to itself and to no
/// other number, so that sending it again gives the same value.
pub proof fn lemma_round_trip_i64(x: i64)
    ensures
        <ParseIr<i64> as ConvIr<i64>>::accepts(x.encoding()),
        forall|t: i64|
            <ParseIr<i64> as ConvIr<i64>>::yields(x.encoding(), t) <==> t == x,
        forall|t: i64|
            <ParseIr<i64> as ConvIr<i64>>::yields(x.encoding(), t) ==> t.encoding()
                == x.encoding(),
{
}

/// An `u64` that was sent as a value converts back to itself and to no
/// other number, so that sending it again gives the same value.
pub proof fn lemma_round_trip_u64(x: u64)
    ensures
        <ParseIr<u64> as ConvIr<u64>>::accepts(x.encoding()),
        forall|t: u64|
            <ParseIr<u64> as ConvIr<u64>>::yields(x.encoding(), t) <==> t == x,
        forall|t: u64|
            <ParseIr<u64> as ConvIr<u64>>::yields(x.encoding(), t) ==> t.encoding()
                == x.encoding(),
{
}

/// An `isize` that was sent as a value converts back to itself and to no
/// other number, so that sending it again gives the same value.
pub proof fn lemma_round_trip_isize(x: isize)
    ensures
        <ParseIr<isize> as ConvIr<isize>>::accepts(x.encoding()),
        forall|t: isize|
            <ParseIr<isize> as ConvIr<isize>>::yields(x.encoding(), t) <==> t == x,
        forall|t: isize|
            <ParseIr<isize> as ConvIr<isize>>::yields(x.encoding(), t) ==> t.encoding()
                == x.encoding(),
{
}

/// An `usize` that was sent as a value converts back to itself and to no
/// other number, so that sending it again gives the same value.
pub proof fn lemma_round_trip_usize(x: usize)
    ensures
        <ParseIr<usize> as ConvIr<usize>>::accepts(x.encoding()),
        forall|t: usize|
            <ParseIr<usize> as ConvIr<usize>>::yields(x.encoding(), t) <==> t == x,
        forall|t: usize|
            <ParseIr<usize> as ConvIr<usize>>::yields(x.encoding(), t) ==> t.encoding()
                == x.encoding(),
{
}

/// A day and a time of day that were sent as a value convert back to
/// themselves, in every year that fits in the value. So does a day alone,
/// and so does a time of day alone.
pub proof fn lemma_round_trip_datetime(t: (int, int, int, int, int, int, int))
    requires
        0 <= t.0 <= 65_535,
        is_calendar_date(t.0, t.1, t.2),
        is_time_of_day(t.3, t.4, t.5, t.6),
    ensures
        calendar_datetime(datetime_value(t)) == Some(t),
        calendar_date(date_value((t.0, t.1, t.2))) == Some((t.0, t.1, t.2)),
        calendar_date(datetime_value(t)) == Some((t.0, t.1, t.2)),
        time_of_day(time_of_day_value((t.3, t.4, t.5, t.6))) == Some((t.3, t.4, t.5, t.6)),
{
}

/// A duration with a sign that was sent as a value converts back to itself,
/// as long as its days fit in the value.
pub proof fn lemma_round_trip_signed_duration(micros: int)
    requires
        -0x1_0000_0000 * 86_400 * 1_000_000 < micros < 0x1_0000_0000 * 86_400 * 1_000_000,
    ensures
        signed_span(signed_duration_value(micros)) == Some(micros),
{
}

/// A text converts to a signed integer type exactly where it writes a
/// number that the type holds, and it converts to that number.
pub proof fn lemma_text_to_signed(text: Seq<u8>, min: int, max: int)
    requires
        i64::MIN <= min <= max <= i64::MAX,
    ensures
        within(signed_integer(ValueView::Bytes(text)), min, max) == within(
            decimal_integer(text),
            min,
            max,
        ),
{
}

/// A text converts to an unsigned integer type exactly where it has no
/// minus and writes a number that the type holds, and it converts to that
/// number.
pub proof fn lemma_text_to_unsigned(text: Seq<u8>, max: int)
    requires
        0 <= max <= u64::MAX,
    ensures
        within(unsigned_integer(ValueView::Bytes(text)), 0, max) == if text.len() > 0 && text[0]
            == MINUS {
            None
        } else {
            within(decimal_integer(text), 0, max)
        },
{
}

} // verus!
