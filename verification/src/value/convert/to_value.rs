//! Construction of a [`Value`] from a host value.

use crate::value::convert::string_into_bytes;
use crate::value::datetime::{Date, DateTime, Duration, SignedDuration, TimeOfDay};
use crate::value::{Value, ValueView};
use vstd::prelude::*;
use vstd::slice::slice_to_vec;
use vstd::std_specs::convert::FromSpecImpl;
use vstd::utf8::encode_utf8;

verus! {

/// The value that an integer is sent as: signed where 64 signed bits hold
/// it, unsigned where only 64 unsigned bits do.
pub open spec fn integer_value(n: int) -> ValueView {
    if n <= i64::MAX {
        ValueView::Int(n as i64)
    } else {
        ValueView::UInt(n as u64)
    }
}

/// The value that a truth value is sent as.
pub open spec fn bool_value(b: bool) -> ValueView {
    ValueView::Int(if b { 1 } else { 0 })
}

/// The value that a day and a time of day are sent as.
pub open spec fn datetime_value(t: (int, int, int, int, int, int, int)) -> ValueView {
    ValueView::Date(t.0 as u16, t.1 as u8, t.2 as u8, t.3 as u8, t.4 as u8, t.5 as u8, t.6 as u32)
}

/// The value that a day is sent as: the day at midnight.
pub open spec fn date_value(t: (int, int, int)) -> ValueView {
    ValueView::Date(t.0 as u16, t.1 as u8, t.2 as u8, 0, 0, 0, 0)
}

/// The value that a time of day is sent as: a duration without sign and days.
pub open spec fn time_of_day_value(t: (int, int, int, int)) -> ValueView {
    ValueView::Time(false, 0, t.0 as u8, t.1 as u8, t.2 as u8, t.3 as u32)
}

/// The value that a duration of `secs` whole seconds is sent as, given its
/// sign and the microseconds beyond the seconds. The days are counted modulo
/// two to the power 32.
pub open spec fn span(negative: bool, secs: int, micros: int) -> Value {
    Value::Time(
        negative,
        ((secs / 86_400) % 0x1_0000_0000) as u32,
        ((secs % 86_400) / 3_600) as u8,
        ((secs % 3_600) / 60) as u8,
        (secs % 60) as u8,
        micros as u32,
    )
}

/// The content of [`span`].
pub open spec fn span_value(negative: bool, secs: int, micros: int) -> ValueView {
    span(negative, secs, micros)@
}

/// The value that a duration without sign is sent as, given its length in
/// nanoseconds. The nanoseconds beyond the whole seconds are rounded to the
/// nearest microsecond, a half upwards; a million microseconds stay a million.
pub open spec fn duration_value(nanos: nat) -> ValueView {
    span_value(
        false,
        (nanos / 1_000_000_000) as int,
        ((nanos % 1_000_000_000 + 500) / 1_000) as int,
    )
}

/// The value that a duration with a sign is sent as, given its length in
/// microseconds.
pub open spec fn signed_duration_value(micros: int) -> ValueView {
    let magnitude = if micros < 0 { -micros } else { micros };
    span_value(micros < 0, magnitude / 1_000_000, magnitude % 1_000_000)
}

/// A host value that can be sent as a [`Value`].
pub trait ToValue {
    /// Whether the value can be sent. A date can be sent only in the years
    /// from 1000 to 9999.
    spec fn encodable(&self) -> bool;

    /// What the value is sent as.
    spec fn encoding(&self) -> ValueView;

    fn to_value(&self) -> (r: Value)
        requires
            self.encodable(),
        ensures
            r@ == self.encoding(),
    ;
}

impl From<i8> for Value {
    fn from(x: i8) -> (r: Value)
        ensures
            r@ == integer_value(x as int),
    {
        Value::Int(x as i64)
    }
}

impl FromSpecImpl<i8> for Value {
    open spec fn obeys_from_spec() -> bool {
        true
    }

    open spec fn from_spec(x: i8) -> Value {
        Value::Int(x as i64)
    }
}

impl ToValue for i8 {
    open spec fn encodable(&self) -> bool {
        true
    }

    open spec fn encoding(&self) -> ValueView {
        integer_value(*self as int)
    }

    fn to_value(&self) -> (r: Value) {
        Value::from(*self)
    }
}

impl From<u8> for Value {
    fn from(x: u8) -> (r: Value)
        ensures
            r@ == integer_value(x as int),
    {
        Value::Int(x as i64)
    }
}

impl FromSpecImpl<u8> for Value {
    open spec fn obeys_from_spec() -> bool {
        true
    }

    open spec fn from_spec(x: u8) -> Value {
        Value::Int(x as i64)
    }
}

impl ToValue for u8 {
    open spec fn encodable(&self) -> bool {
        true
    }

    open spec fn encoding(&self) -> ValueView {
        integer_value(*self as int)
    }

    fn to_value(&self) -> (r: Value) {
        Value::from(*self)
    }
}

impl From<i16> for Value {
    fn from(x: i16) -> (r: Value)
        ensures
            r@ == integer_value(x as int),
    {
        Value::Int(x as i64)
    }
}

impl FromSpecImpl<i16> for Value {
    open spec fn obeys_from_spec() -> bool {
        true
    }

    open spec fn from_spec(x: i16) -> Value {
        Value::Int(x as i64)
    }
}

impl ToValue for i16 {
    open spec fn encodable(&self) -> bool {
        true
    }

    open spec fn encoding(&self) -> ValueView {
        integer_value(*self as int)
    }

    fn to_value(&self) -> (r: Value) {
        Value::from(*self)
    }
}

impl From<u16> for Value {
    fn from(x: u16) -> (r: Value)
        ensures
            r@ == integer_value(x as int),
    {
        Value::Int(x as i64)
    }
}

impl FromSpecImpl<u16> for Value {
    open spec fn obeys_from_spec() -> bool {
        true
    }

    open spec fn from_spec(x: u16) -> Value {
        Value::Int(x as i64)
    }
}

impl ToValue for u16 {
    open spec fn encodable(&self) -> bool {
        true
    }

    open spec fn encoding(&self) -> ValueView {
        integer_value(*self as int)
    }

    fn to_value(&self) -> (r: Value) {
        Value::from(*self)
    }
}

impl From<i32> for Value {
    fn from(x: i32) -> (r: Value)
        ensures
            r@ == integer_value(x as int),
    {
        Value::Int(x as i64)
    }
}

impl FromSpecImpl<i32> for Value {
    open spec fn obeys_from_spec() -> bool {
        true
    }

    open spec fn from_spec(x: i32) -> Value {
        Value::Int(x as i64)
    }
}

impl ToValue for i32 {
    open spec fn encodable(&self) -> bool {
        true
    }

    open spec fn encoding(&self) -> ValueView {
        integer_value(*self as int)
    }

    fn to_value(&self) -> (r: Value) {
        Value::from(*self)
    }
}

impl From<u32> for Value {
    fn from(x: u32) -> (r: Value)
        ensures
            r@ == integer_value(x as int),
    {
        Value::Int(x as i64)
    }
}

impl FromSpecImpl<u32> for Value {
    open spec fn obeys_from_spec() -> bool {
        true
    }

    open spec fn from_spec(x: u32) -> Value {
        Value::Int(x as i64)
    }
}

impl ToValue for u32 {
    open spec fn encodable(&self) -> bool {
        true
    }

    open spec fn encoding(&self) -> ValueView {
        integer_value(*self as int)
    }

    fn to_value(&self) -> (r: Value) {
        Value::from(*self)
    }
}

impl From<i64> for Value {
    fn from(x: i64) -> (r: Value)
        ensures
            r@ == integer_value(x as int),
    {
        Value::Int(x as i64)
    }
}

impl FromSpecImpl<i64> for Value {
    open spec fn obeys_from_spec() -> bool {
        true
    }

    open spec fn from_spec(x: i64) -> Value {
        Value::Int(x as i64)
    }
}

impl ToValue for i64 {
    open spec fn encodable(&self) -> bool {
        true
    }

    open spec fn encoding(&self) -> ValueView {
        integer_value(*self as int)
    }

    fn to_value(&self) -> (r: Value) {
        Value::from(*self)
    }
}

impl From<isize> for Value {
    fn from(x: isize) -> (r: Value)
        ensures
            r@ == integer_value(x as int),
    {
        Value::Int(x as i64)
    }
}

impl FromSpecImpl<isize> for Value {
    open spec fn obeys_from_spec() -> bool {
        true
    }

    open spec fn from_spec(x: isize) -> Value {
        Value::Int(x as i64)
    }
}

impl ToValue for isize {
    open spec fn encodable(&self) -> bool {
        true
    }

    open spec fn encoding(&self) -> ValueView {
        integer_value(*self as int)
    }

    fn to_value(&self) -> (r: Value) {
        Value::from(*self)
    }
}

impl From<u64> for Value {
    fn from(x: u64) -> (r: Value)
        ensures
            r@ == integer_value(x as int),
    {
        if x <= i64::MAX as u64 {
            Value::Int(x as i64)
        } else {
            Value::UInt(x as u64)
        }
    }
}

impl FromSpecImpl<u64> for Value {
    open spec fn obeys_from_spec() -> bool {
        true
    }

    open spec fn from_spec(x: u64) -> Value {
        if x <= i64::MAX {
            Value::Int(x as i64)
        } else {
            Value::UInt(x as u64)
        }
    }
}

impl ToValue for u64 {
    open spec fn encodable(&self) -> bool {
        true
    }

    open spec fn encoding(&self) -> ValueView {
        integer_value(*self as int)
    }

    fn to_value(&self) -> (r: Value) {
        Value::from(*self)
    }
}

impl From<usize> for Value {
    fn from(x: usize) -> (r: Value)
        ensures
            r@ == integer_value(x as int),
    {
        if x as u64 <= i64::MAX as u64 {
            Value::Int(x as i64)
        } else {
            Value::UInt(x as u64)
        }
    }
}

impl FromSpecImpl<usize> for Value {
    open spec fn obeys_from_spec() -> bool {
        true
    }

    open spec fn from_spec(x: usize) -> Value {
        if x <= i64::MAX {
            Value::Int(x as i64)
        } else {
            Value::UInt(x as u64)
        }
    }
}

impl ToValue for usize {
    open spec fn encodable(&self) -> bool {
        true
    }

    open spec fn encoding(&self) -> ValueView {
        integer_value(*self as int)
    }

    fn to_value(&self) -> (r: Value) {
        Value::from(*self)
    }
}

impl From<bool> for Value {
    fn from(x: bool) -> (r: Value)
        ensures
            r@ == bool_value(x),
    {
        Value::Int(if x { 1 } else { 0 })
    }
}

impl FromSpecImpl<bool> for Value {
    open spec fn obeys_from_spec() -> bool {
        true
    }

    open spec fn from_spec(x: bool) -> Value {
        Value::Int(if x { 1 } else { 0 })
    }
}

impl ToValue for bool {
    open spec fn encodable(&self) -> bool {
        true
    }

    open spec fn encoding(&self) -> ValueView {
        bool_value(*self)
    }

    fn to_value(&self) -> (r: Value) {
        Value::from(*self)
    }
}

impl From<Vec<u8>> for Value {
    fn from(x: Vec<u8>) -> (r: Value)
        ensures
            r@ == ValueView::Bytes(x@),
    {
        Value::Bytes(x)
    }
}

impl FromSpecImpl<Vec<u8>> for Value {
    open spec fn obeys_from_spec() -> bool {
        true
    }

    open spec fn from_spec(x: Vec<u8>) -> Value {
        Value::Bytes(x)
    }
}

impl ToValue for Vec<u8> {
    open spec fn encodable(&self) -> bool {
        true
    }

    open spec fn encoding(&self) -> ValueView {
        ValueView::Bytes(self@)
    }

    fn to_value(&self) -> (r: Value) {
        Value::Bytes(slice_to_vec(self.as_slice()))
    }
}

impl<'a> From<&'a [u8]> for Value {
    fn from(x: &'a [u8]) -> (r: Value)
        ensures
            r@ == ValueView::Bytes(x@),
    {
        Value::Bytes(slice_to_vec(x))
    }
}

impl<'a> FromSpecImpl<&'a [u8]> for Value {
    open spec fn obeys_from_spec() -> bool {
        false
    }

    open spec fn from_spec(x: &'a [u8]) -> Value {
        arbitrary()
    }
}

impl<'a> ToValue for &'a [u8] {
    open spec fn encodable(&self) -> bool {
        true
    }

    open spec fn encoding(&self) -> ValueView {
        ValueView::Bytes(self@)
    }

    fn to_value(&self) -> (r: Value) {
        Value::from(*self)
    }
}

impl<const N: usize> From<[u8; N]> for Value {
    fn from(x: [u8; N]) -> (r: Value)
        ensures
            r@ == ValueView::Bytes(x@),
    {
        Value::Bytes(slice_to_vec(x.as_slice()))
    }
}

impl<const N: usize> FromSpecImpl<[u8; N]> for Value {
    open spec fn obeys_from_spec() -> bool {
        false
    }

    open spec fn from_spec(x: [u8; N]) -> Value {
        arbitrary()
    }
}

impl<const N: usize> ToValue for [u8; N] {
    open spec fn encodable(&self) -> bool {
        true
    }

    open spec fn encoding(&self) -> ValueView {
        ValueView::Bytes(self@)
    }

    fn to_value(&self) -> (r: Value) {
        Value::Bytes(slice_to_vec(self.as_slice()))
    }
}

impl<'a> From<&'a str> for Value {
    fn from(x: &'a str) -> (r: Value)
        ensures
            r@ == ValueView::Bytes(encode_utf8(x@)),
    {
        Value::Bytes(slice_to_vec(x.as_bytes()))
    }
}

impl<'a> FromSpecImpl<&'a str> for Value {
    open spec fn obeys_from_spec() -> bool {
        false
    }

    open spec fn from_spec(x: &'a str) -> Value {
        arbitrary()
    }
}

impl<'a> ToValue for &'a str {
    open spec fn encodable(&self) -> bool {
        true
    }

    open spec fn encoding(&self) -> ValueView {
        ValueView::Bytes(encode_utf8(self@))
    }

    fn to_value(&self) -> (r: Value) {
        Value::from(*self)
    }
}

impl From<String> for Value {
    fn from(x: String) -> (r: Value)
        ensures
            r@ == ValueView::Bytes(encode_utf8(x@)),
    {
        Value::Bytes(string_into_bytes(x))
    }
}

impl FromSpecImpl<String> for Value {
    open spec fn obeys_from_spec() -> bool {
        false
    }

    open spec fn from_spec(x: String) -> Value {
        arbitrary()
    }
}

impl ToValue for String {
    open spec fn encodable(&self) -> bool {
        true
    }

    open spec fn encoding(&self) -> ValueView {
        ValueView::Bytes(encode_utf8(self@))
    }

    fn to_value(&self) -> (r: Value) {
        Value::Bytes(slice_to_vec(self.as_str().as_bytes()))
    }
}

impl ToValue for DateTime {
    open spec fn encodable(&self) -> bool {
        1000 <= self@.0 <= 9999
    }

    open spec fn encoding(&self) -> ValueView {
        datetime_value(self@)
    }

    fn to_value(&self) -> (r: Value) {
        let date = self.date();
        let time = self.time();
        vstd::pervasive::runtime_assert(1000 <= date.year() && date.year() <= 9999);
        Value::Date(
            date.year() as u16,
            date.month() as u8,
            date.day() as u8,
            time.hour() as u8,
            time.minute() as u8,
            time.second() as u8,
            time.microsecond(),
        )
    }
}

impl ToValue for Date {
    open spec fn encodable(&self) -> bool {
        1000 <= self@.0 <= 9999
    }

    open spec fn encoding(&self) -> ValueView {
        date_value(self@)
    }

    fn to_value(&self) -> (r: Value) {
        vstd::pervasive::runtime_assert(1000 <= self.year() && self.year() <= 9999);
        Value::Date(self.year() as u16, self.month() as u8, self.day() as u8, 0, 0, 0, 0)
    }
}

impl From<TimeOfDay> for Value {
    fn from(x: TimeOfDay) -> (r: Value)
        ensures
            r@ == time_of_day_value(x@),
    {
        Value::Time(
            false,
            0,
            x.hour() as u8,
            x.minute() as u8,
            x.second() as u8,
            x.microsecond(),
        )
    }
}

impl FromSpecImpl<TimeOfDay> for Value {
    open spec fn obeys_from_spec() -> bool {
        true
    }

    open spec fn from_spec(x: TimeOfDay) -> Value {
        Value::Time(false, 0, x@.0 as u8, x@.1 as u8, x@.2 as u8, x@.3 as u32)
    }
}

impl ToValue for TimeOfDay {
    open spec fn encodable(&self) -> bool {
        true
    }

    open spec fn encoding(&self) -> ValueView {
        time_of_day_value(self@)
    }

    fn to_value(&self) -> (r: Value) {
        Value::from(*self)
    }
}

/// Makes the value of a duration from its sign, its whole seconds and the
/// microseconds beyond them.
pub fn span_to_value(negative: bool, secs: u64, micros: u32) -> (r: Value)
    ensures
        r@ == span_value(negative, secs as int, micros as int),
{
    let days: u64 = secs / 86_400;
    let hours: u64 = (secs % 86_400) / 3_600;
    let minutes: u64 = (secs % 3_600) / 60;
    let seconds: u64 = secs % 60;
    Value::Time(
        negative,
        (days % 0x1_0000_0000) as u32,
        hours as u8,
        minutes as u8,
        seconds as u8,
        micros,
    )
}

impl From<Duration> for Value {
    fn from(x: Duration) -> (r: Value)
        ensures
            r@ == duration_value(x@),
    {
        let micros: u32 = (x.subsec_nanos() + 500) / 1_000;
        span_to_value(false, x.as_secs(), micros)
    }
}

impl FromSpecImpl<Duration> for Value {
    open spec fn obeys_from_spec() -> bool {
        true
    }

    open spec fn from_spec(x: Duration) -> Value {
        span(false, (x@ / 1_000_000_000) as int, ((x@ % 1_000_000_000 + 500) / 1_000) as int)
    }
}

impl ToValue for Duration {
    open spec fn encodable(&self) -> bool {
        true
    }

    open spec fn encoding(&self) -> ValueView {
        duration_value(self@)
    }

    fn to_value(&self) -> (r: Value) {
        Value::from(*self)
    }
}

impl From<SignedDuration> for Value {
    fn from(x: SignedDuration) -> (r: Value)
        ensures
            r@ == signed_duration_value(x@),
    {
        span_to_value(x.is_negative(), x.whole_seconds(), x.subsec_micros())
    }
}

impl FromSpecImpl<SignedDuration> for Value {
    open spec fn obeys_from_spec() -> bool {
        true
    }

    open spec fn from_spec(x: SignedDuration) -> Value {
        let magnitude = if x@ < 0 { -x@ } else { x@ };
        span(x@ < 0, magnitude / 1_000_000, magnitude % 1_000_000)
    }
}

impl ToValue for SignedDuration {
    open spec fn encodable(&self) -> bool {
        true
    }

    open spec fn encoding(&self) -> ValueView {
        signed_duration_value(self@)
    }

    fn to_value(&self) -> (r: Value) {
        Value::from(*self)
    }
}

impl ToValue for Value {
    open spec fn encodable(&self) -> bool {
        true
    }

    /// A value is sent as it is.
    open spec fn encoding(&self) -> ValueView {
        self@
    }

    fn to_value(&self) -> (r: Value) {
        self.clone()
    }
}

impl<T: ToValue> ToValue for Option<T> {
    open spec fn encodable(&self) -> bool {
        match self {
            Some(x) => x.encodable(),
            None => true,
        }
    }

    open spec fn encoding(&self) -> ValueView {
        match self {
            Some(x) => x.encoding(),
            None => ValueView::Null,
        }
    }

    fn to_value(&self) -> (r: Value) {
        match self {
            Some(x) => x.to_value(),
            None => Value::NULL,
        }
    }
}

impl<T: Into<Value>> From<Option<T>> for Value {
    fn from(x: Option<T>) -> (r: Value)
        ensures
            x is None ==> r@ == ValueView::Null,
            x matches Some(y) ==> call_ensures(<T as Into<Value>>::into, (y,), r),
    {
        match x {
            None => Value::NULL,
            Some(x) => x.into(),
        }
    }
}

impl<T: Into<Value>> FromSpecImpl<Option<T>> for Value {
    open spec fn obeys_from_spec() -> bool {
        <T as vstd::std_specs::convert::IntoSpec<Value>>::obeys_into_spec()
    }

    open spec fn from_spec(x: Option<T>) -> Value {
        match x {
            None => Value::NULL,
            Some(x) => <T as vstd::std_specs::convert::IntoSpec<Value>>::into_spec(x),
        }
    }
}

} // verus!
