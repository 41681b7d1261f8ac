//! Conversion to dates, times of day and durations.

use crate::value::convert::{ConvIr, FromValue, FromValueError, ParseIr};
use crate::value::datetime::{
    is_calendar_date, is_time_of_day, Date, DateTime, Duration, SignedDuration, TimeOfDay,
};
use crate::value::temporal::{
    datetime_fields, parse_mysql_datetime_string, parse_mysql_time_string, time_fields,
};
use crate::value::{Value, ValueView};
use vstd::prelude::*;

verus! {

/// Year, month, day, hour, minute, second and microsecond as a value holds
/// or writes them, whether or not they name a day and a time of day.
pub open spec fn datetime_parts(v: ValueView) -> Option<(int, int, int, int, int, int, int)> {
    match v {
        ValueView::Date(y, m, d, h, i, s, u) => Some(
            (y as int, m as int, d as int, h as int, i as int, s as int, u as int),
        ),
        ValueView::Bytes(text) => match datetime_fields(text) {
            Some((y, m, d, h, i, s, u)) => Some(
                (y as int, m as int, d as int, h as int, i as int, s as int, u as int),
            ),
            None => None,
        },
        _ => None,
    }
}

/// The day and time of day that a value converts to.
pub open spec fn calendar_datetime(v: ValueView) -> Option<(int, int, int, int, int, int, int)> {
    match datetime_parts(v) {
        Some(p) => if is_calendar_date(p.0, p.1, p.2) && is_time_of_day(p.3, p.4, p.5, p.6) {
            Some(p)
        } else {
            None
        },
        None => None,
    }
}

/// The day that a value converts to. What the value says of the time of day
/// is not looked at.
pub open spec fn calendar_date(v: ValueView) -> Option<(int, int, int)> {
    match datetime_parts(v) {
        Some(p) => if is_calendar_date(p.0, p.1, p.2) {
            Some((p.0, p.1, p.2))
        } else {
            None
        },
        None => None,
    }
}

/// Hours, minutes, seconds and microseconds as a value holds or writes them
/// for a time of day: a duration without sign and days, or the text of one.
pub open spec fn time_of_day_parts(v: ValueView) -> Option<(int, int, int, int)> {
    match v {
        ValueView::Time(negative, days, h, m, s, u) => if !negative && days == 0 {
            Some((h as int, m as int, s as int, u as int))
        } else {
            None
        },
        ValueView::Bytes(text) => match time_fields(text) {
            Some((negative, h, m, s, u)) => if !negative {
                Some((h as int, m as int, s as int, u as int))
            } else {
                None
            },
            None => None,
        },
        _ => None,
    }
}

/// The time of day that a value converts to.
pub open spec fn time_of_day(v: ValueView) -> Option<(int, int, int, int)> {
    match time_of_day_parts(v) {
        Some(p) => if is_time_of_day(p.0, p.1, p.2, p.3) {
            Some(p)
        } else {
            None
        },
        None => None,
    }
}

/// Days, hours, minutes, seconds and microseconds as one number of microseconds.
pub open spec fn span_micros(
    days: int,
    hours: int,
    minutes: int,
    seconds: int,
    micros: int,
) -> int {
    (((days * 24 + hours) * 60 + minutes) * 60 + seconds) * 1_000_000 + micros
}

/// The sign and the length in microseconds of the duration that a value
/// holds or writes.
pub open spec fn span_parts(v: ValueView) -> Option<(bool, int)> {
    match v {
        ValueView::Time(negative, days, h, m, s, u) => Some(
            (negative, span_micros(days as int, h as int, m as int, s as int, u as int)),
        ),
        ValueView::Bytes(text) => match time_fields(text) {
            Some((negative, h, m, s, u)) => Some(
                (negative, span_micros(0, h as int, m as int, s as int, u as int)),
            ),
            None => None,
        },
        _ => None,
    }
}

/// The duration in microseconds that a value converts to where the target
/// has a sign.
pub open spec fn signed_span(v: ValueView) -> Option<int> {
    match span_parts(v) {
        Some((negative, micros)) => Some(if negative { -micros } else { micros }),
        None => None,
    }
}

/// The duration in microseconds that a value converts to where the target
/// has no sign: a value with the sign set does not convert, whatever its length.
pub open spec fn unsigned_span(v: ValueView) -> Option<int> {
    match span_parts(v) {
        Some((negative, micros)) => if negative {
            None
        } else {
            Some(micros)
        },
        None => None,
    }
}

/// Reads year, month, day, hour, minute, second and microsecond from a value.
pub fn datetime_parts_of(v: &Value) -> (r: Option<(i32, u32, u32, u32, u32, u32, u32)>)
    ensures
        match r {
            Some(p) => datetime_parts(v@) == Some(
                (
                    p.0 as int,
                    p.1 as int,
                    p.2 as int,
                    p.3 as int,
                    p.4 as int,
                    p.5 as int,
                    p.6 as int,
                ),
            ),
            None => datetime_parts(v@) is None,
        },
{
    match v {
        Value::Date(y, m, d, h, i, s, u) => Some(
            (*y as i32, *m as u32, *d as u32, *h as u32, *i as u32, *s as u32, *u),
        ),
        Value::Bytes(bytes) => match parse_mysql_datetime_string(bytes.as_slice()) {
            Some((y, m, d, h, i, s, u)) => Some((y as i32, m, d, h, i, s, u)),
            None => None,
        },
        _ => None,
    }
}

/// Reads a day and a time of day from a value.
pub fn datetime_of(v: &Value) -> (r: Option<DateTime>)
    ensures
        match r {
            Some(t) => calendar_datetime(v@) == Some(t@),
            None => calendar_datetime(v@) is None,
        },
{
    match datetime_parts_of(v) {
        Some((y, m, d, h, i, s, u)) => {
            let date = Date::from_ymd_opt(y, m, d);
            let time = TimeOfDay::from_hms_micro_opt(h, i, s, u);
            match (date, time) {
                (Some(date), Some(time)) => Some(DateTime::new(date, time)),
                _ => None,
            }
        },
        None => None,
    }
}

/// Reads a day from a value.
pub fn date_of(v: &Value) -> (r: Option<Date>)
    ensures
        match r {
            Some(t) => calendar_date(v@) == Some(t@),
            None => calendar_date(v@) is None,
        },
{
    match datetime_parts_of(v) {
        Some((y, m, d, _, _, _, _)) => Date::from_ymd_opt(y, m, d),
        None => None,
    }
}

/// Reads a time of day from a value.
pub fn time_of_day_of(v: &Value) -> (r: Option<TimeOfDay>)
    ensures
        match r {
            Some(t) => time_of_day(v@) == Some(t@),
            None => time_of_day(v@) is None,
        },
{
    match v {
        Value::Time(false, 0, h, m, s, u) => TimeOfDay::from_hms_micro_opt(
            *h as u32,
            *m as u32,
            *s as u32,
            *u,
        ),
        Value::Bytes(bytes) => match parse_mysql_time_string(bytes.as_slice()) {
            Some((false, h, m, s, u)) => TimeOfDay::from_hms_micro_opt(h, m, s, u),
            _ => None,
        },
        _ => None,
    }
}

/// Reads the sign of a duration from a value, and its length in whole
/// seconds and microseconds below a million.
pub fn span_parts_of(v: &Value) -> (r: Option<(bool, u64, u32)>)
    ensures
        match r {
            Some((negative, secs, micros)) => micros < 1_000_000 && secs < 1_000_000_000_000_000
                && span_parts(v@) == Some((negative, secs * 1_000_000 + micros)),
            None => span_parts(v@) is None,
        },
{
    match v {
        Value::Time(negative, days, hours, minutes, seconds, micros) => {
            let secs: u64 = *seconds as u64 + *minutes as u64 * 60 + *hours as u64 * 60 * 60
                + *days as u64 * 60 * 60 * 24 + (*micros / 1_000_000) as u64;
            Some((*negative, secs, *micros % 1_000_000))
        },
        Value::Bytes(bytes) => match parse_mysql_time_string(bytes.as_slice()) {
            Some((negative, hours, minutes, seconds, micros)) => {
                let secs: u64 = seconds as u64 + minutes as u64 * 60 + hours as u64 * 60 * 60;
                Some((negative, secs, micros))
            },
            None => None,
        },
        _ => None,
    }
}

/// Reads a duration from a value for a target without sign.
pub fn duration_of(v: &Value) -> (r: Option<Duration>)
    ensures
        match r {
            Some(t) => unsigned_span(v@) matches Some(micros) && t@ == micros * 1_000,
            None => unsigned_span(v@) is None,
        },
{
    match span_parts_of(v) {
        Some((false, secs, micros)) => Duration::new(secs, micros * 1_000),
        _ => None,
    }
}

/// Reads a duration from a value for a target with a sign.
pub fn signed_duration_of(v: &Value) -> (r: Option<SignedDuration>)
    ensures
        match r {
            Some(t) => signed_span(v@) == Some(t@),
            None => signed_span(v@) is None,
        },
{
    match span_parts_of(v) {
        Some((negative, secs, micros)) => SignedDuration::new(negative, secs, micros),
        None => None,
    }
}

impl ConvIr<DateTime> for ParseIr<DateTime> {
    open spec fn accepts(v: ValueView) -> bool {
        calendar_datetime(v) is Some
    }

    open spec fn yields(v: ValueView, t: DateTime) -> bool {
        calendar_datetime(v) == Some(t@)
    }

    closed spec fn source(&self) -> ValueView {
        self.value@
    }

    closed spec fn wf(&self) -> bool {
        Self::yields(self.value@, self.output)
    }

    fn new(v: Value) -> (r: Result<ParseIr<DateTime>, FromValueError>) {
        match datetime_of(&v) {
            Some(t) => Ok(ParseIr { value: v, output: t }),
            None => Err(FromValueError(v)),
        }
    }

    fn commit(self) -> (t: DateTime) {
        self.output
    }

    fn rollback(self) -> (v: Value) {
        self.value
    }
}

impl FromValue for DateTime {
    type Intermediate = ParseIr<DateTime>;
}

impl ConvIr<Date> for ParseIr<Date> {
    open spec fn accepts(v: ValueView) -> bool {
        calendar_date(v) is Some
    }

    open spec fn yields(v: ValueView, t: Date) -> bool {
        calendar_date(v) == Some(t@)
    }

    closed spec fn source(&self) -> ValueView {
        self.value@
    }

    closed spec fn wf(&self) -> bool {
        Self::yields(self.value@, self.output)
    }

    fn new(v: Value) -> (r: Result<ParseIr<Date>, FromValueError>) {
        match date_of(&v) {
            Some(t) => Ok(ParseIr { value: v, output: t }),
            None => Err(FromValueError(v)),
        }
    }

    fn commit(self) -> (t: Date) {
        self.output
    }

    fn rollback(self) -> (v: Value) {
        self.value
    }
}

impl FromValue for Date {
    type Intermediate = ParseIr<Date>;
}

impl ConvIr<TimeOfDay> for ParseIr<TimeOfDay> {
    open spec fn accepts(v: ValueView) -> bool {
        time_of_day(v) is Some
    }

    open spec fn yields(v: ValueView, t: TimeOfDay) -> bool {
        time_of_day(v) == Some(t@)
    }

    closed spec fn source(&self) -> ValueView {
        self.value@
    }

    closed spec fn wf(&self) -> bool {
        Self::yields(self.value@, self.output)
    }

    fn new(v: Value) -> (r: Result<ParseIr<TimeOfDay>, FromValueError>) {
        match time_of_day_of(&v) {
            Some(t) => Ok(ParseIr { value: v, output: t }),
            None => Err(FromValueError(v)),
        }
    }

    fn commit(self) -> (t: TimeOfDay) {
        self.output
    }

    fn rollback(self) -> (v: Value) {
        self.value
    }
}

impl FromValue for TimeOfDay {
    type Intermediate = ParseIr<TimeOfDay>;
}

impl ConvIr<Duration> for ParseIr<Duration> {
    open spec fn accepts(v: ValueView) -> bool {
        unsigned_span(v) is Some
    }

    open spec fn yields(v: ValueView, t: Duration) -> bool {
        unsigned_span(v) matches Some(micros) && t@ == micros * 1_000
    }

    closed spec fn source(&self) -> ValueView {
        self.value@
    }

    closed spec fn wf(&self) -> bool {
        Self::yields(self.value@, self.output)
    }

    fn new(v: Value) -> (r: Result<ParseIr<Duration>, FromValueError>) {
        match duration_of(&v) {
            Some(t) => Ok(ParseIr { value: v, output: t }),
            None => Err(FromValueError(v)),
        }
    }

    fn commit(self) -> (t: Duration) {
        self.output
    }

    fn rollback(self) -> (v: Value) {
        self.value
    }
}

impl FromValue for Duration {
    type Intermediate = ParseIr<Duration>;
}

impl ConvIr<SignedDuration> for ParseIr<SignedDuration> {
    open spec fn accepts(v: ValueView) -> bool {
        signed_span(v) is Some
    }

    open spec fn yields(v: ValueView, t: SignedDuration) -> bool {
        signed_span(v) == Some(t@)
    }

    closed spec fn source(&self) -> ValueView {
        self.value@
    }

    closed spec fn wf(&self) -> bool {
        Self::yields(self.value@, self.output)
    }

    fn new(v: Value) -> (r: Result<ParseIr<SignedDuration>, FromValueError>) {
        match signed_duration_of(&v) {
            Some(t) => Ok(ParseIr { value: v, output: t }),
            None => Err(FromValueError(v)),
        }
    }

    fn commit(self) -> (t: SignedDuration) {
        self.output
    }

    fn rollback(self) -> (v: Value) {
        self.value
    }
}

impl FromValue for SignedDuration {
    type Intermediate = ParseIr<SignedDuration>;
}

} // verus!
