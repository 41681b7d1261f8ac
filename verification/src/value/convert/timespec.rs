//! Points in time counted from 1970: what a value gives towards one, and
//! what value a point in time is sent as.
//!
//! To count the seconds between 1970 and a day of the calendar takes the
//! time zone of the machine, which is not known here. This module works
//! with the calendar fields; the caller turns them into a count of seconds
//! and back.

use crate::value::convert::{ConvIr, FromValue, FromValueError, ParseIr};
use crate::value::{Value, ValueView};
use vstd::prelude::*;
use vstd::utf8::{decode_utf8, valid_utf8};

verus! {

/// A point in time in calendar fields, as the C library holds it: seconds,
/// minutes, hours, day of the month, months since January, years since 1900
/// and nanoseconds.
#[derive(Clone, Copy, Debug, PartialEq, Eq)]
pub struct Tm {
    pub tm_sec: i32,
    pub tm_min: i32,
    pub tm_hour: i32,
    pub tm_mday: i32,
    pub tm_mon: i32,
    pub tm_year: i32,
    pub tm_nsec: i32,
}

/// What `time::strptime` reads from a text under a format, `None` standing
/// for its error.
pub uninterp spec fn strptime_fields(text: Seq<char>, format: Seq<char>) -> Option<Tm>;

/// Calls `std::str::from_utf8`: the bytes as text where they are UTF-8,
/// which then holds the characters that they encode, and nothing where they
/// are not.
#[verifier::external_body]
fn str_from_utf8(bytes: &[u8]) -> (r: Option<&str>)
    ensures
        match r {
            Some(text) => valid_utf8(bytes@) && text@ == decode_utf8(bytes@),
            None => !valid_utf8(bytes@),
        },
{
    std::str::from_utf8(bytes).ok()
}

/// Calls `time::strptime` with one of the two formats that are in use, and
/// takes the calendar fields out of what it reads. The contract gives the
/// outcome the name [`strptime_fields`] and claims nothing else of it.
#[verifier::external_body]
fn strptime(text: &str, format: &str) -> (r: Option<Tm>)
    requires
        format@ == "%Y-%m-%d %H:%M:%S"@ || format@ == "%Y-%m-%d"@,
    ensures
        r == strptime_fields(text@, format@),
{
    match time::strptime(text, format) {
        Ok(tm) => Some(
            Tm {
                tm_sec: tm.tm_sec,
                tm_min: tm.tm_min,
                tm_hour: tm.tm_hour,
                tm_mday: tm.tm_mday,
                tm_mon: tm.tm_mon,
                tm_year: tm.tm_year,
                tm_nsec: tm.tm_nsec,
            },
        ),
        Err(_) => None,
    }
}

/// The calendar fields that a date holds.
pub open spec fn tm_of_date(y: u16, m: u8, d: u8, h: u8, i: u8, s: u8, u: u32) -> Tm {
    Tm {
        tm_sec: s as i32,
        tm_min: i as i32,
        tm_hour: h as i32,
        tm_mday: d as i32,
        tm_mon: (m - 1) as i32,
        tm_year: (y - 1900) as i32,
        tm_nsec: (u * 1000) as i32,
    }
}

/// The calendar fields that a text writes: the text is read as a day with
/// a time of day first, and as a day alone where that fails.
pub open spec fn tm_of_text(text: Seq<char>) -> Option<Tm> {
    match strptime_fields(text, "%Y-%m-%d %H:%M:%S"@) {
        Some(tm) => Some(tm),
        None => strptime_fields(text, "%Y-%m-%d"@),
    }
}

/// The calendar fields that a value gives towards a point in time: a date
/// gives its fields, unless its microseconds reach a second; bytes give
/// what they write where they are UTF-8; any other value gives nothing.
///
/// A date with a million microseconds or more is refused although its
/// nanoseconds would fit in the field up to 2,147,483 microseconds: the
/// nanoseconds of calendar fields count what is beyond the whole second,
/// and `Tm::to_timespec` of `time`, which the fields are made for, aborts
/// on a thousand million of them or more.
pub open spec fn timespec_fields(v: ValueView) -> Option<Tm> {
    match v {
        ValueView::Date(y, m, d, h, i, s, u) => if u < 1_000_000 {
            Some(tm_of_date(y, m, d, h, i, s, u))
        } else {
            None
        },
        ValueView::Bytes(bytes) => if valid_utf8(bytes) {
            tm_of_text(decode_utf8(bytes))
        } else {
            None
        },
        _ => None,
    }
}

/// Finds the calendar fields that a value gives towards a point in time.
pub fn timespec_fields_of(v: &Value) -> (r: Option<Tm>)
    ensures
        r == timespec_fields(v@),
{
    match v {
        Value::Date(y, m, d, h, i, s, u) => {
            if *u < 1_000_000 {
                Some(
                    Tm {
                        tm_sec: *s as i32,
                        tm_min: *i as i32,
                        tm_hour: *h as i32,
                        tm_mday: *d as i32,
                        tm_mon: *m as i32 - 1,
                        tm_year: *y as i32 - 1_900,
                        tm_nsec: *u as i32 * 1_000,
                    },
                )
            } else {
                None
            }
        },
        Value::Bytes(bytes) => match str_from_utf8(bytes.as_slice()) {
            Some(text) => match strptime(text, "%Y-%m-%d %H:%M:%S") {
                Some(tm) => Some(tm),
                None => strptime(text, "%Y-%m-%d"),
            },
            None => None,
        },
        _ => None,
    }
}

impl ConvIr<Tm> for ParseIr<Tm> {
    open spec fn accepts(v: ValueView) -> bool {
        timespec_fields(v) is Some
    }

    open spec fn yields(v: ValueView, t: Tm) -> bool {
        timespec_fields(v) == Some(t)
    }

    closed spec fn source(&self) -> ValueView {
        self.value@
    }

    closed spec fn wf(&self) -> bool {
        Self::yields(self.value@, self.output)
    }

    fn new(v: Value) -> (r: Result<ParseIr<Tm>, FromValueError>) {
        match timespec_fields_of(&v) {
            Some(t) => Ok(ParseIr { value: v, output: t }),
            None => Err(FromValueError(v)),
        }
    }

    fn commit(self) -> (t: Tm) {
        self.output
    }

    fn rollback(self) -> (v: Value) {
        self.value
    }
}

impl FromValue for Tm {
    type Intermediate = ParseIr<Tm>;
}

/// Whether calendar fields fit in a date: each field in the range that the
/// C library gives it, and the year from 0 to 65535.
pub open spec fn fits_date(tm: Tm) -> bool {
    &&& 0 <= tm.tm_sec <= 60
    &&& 0 <= tm.tm_min <= 59
    &&& 0 <= tm.tm_hour <= 23
    &&& 1 <= tm.tm_mday <= 31
    &&& 0 <= tm.tm_mon <= 11
    &&& 0 <= tm.tm_year + 1900 <= 65_535
    &&& 0 <= tm.tm_nsec < 1_000_000_000
}

/// The date that calendar fields are sent as. The nanoseconds lose what is
/// below a microsecond.
pub open spec fn date_of_tm(tm: Tm) -> ValueView {
    ValueView::Date(
        (tm.tm_year + 1900) as u16,
        (tm.tm_mon + 1) as u8,
        tm.tm_mday as u8,
        tm.tm_hour as u8,
        tm.tm_min as u8,
        tm.tm_sec as u8,
        (tm.tm_nsec / 1000) as u32,
    )
}

/// Makes the date that calendar fields are sent as, if they fit in one.
pub fn tm_to_value(tm: &Tm) -> (r: Option<Value>)
    ensures
        r is Some <==> fits_date(*tm),
        r matches Some(v) ==> v@ == date_of_tm(*tm),
{
    if 0 <= tm.tm_sec && tm.tm_sec <= 60 && 0 <= tm.tm_min && tm.tm_min <= 59 && 0 <= tm.tm_hour
        && tm.tm_hour <= 23 && 1 <= tm.tm_mday && tm.tm_mday <= 31 && 0 <= tm.tm_mon && tm.tm_mon
        <= 11 && -1_900 <= tm.tm_year && tm.tm_year <= 63_635 && 0 <= tm.tm_nsec && tm.tm_nsec
        < 1_000_000_000 {
        Some(
            Value::Date(
                (tm.tm_year + 1_900) as u16,
                (tm.tm_mon + 1) as u8,
                tm.tm_mday as u8,
                tm.tm_hour as u8,
                tm.tm_min as u8,
                tm.tm_sec as u8,
                (tm.tm_nsec / 1_000) as u32,
            ),
        )
    } else {
        None
    }
}

} // verus!
