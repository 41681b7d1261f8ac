//! Calendar dates, times of day and durations: the host values that the
//! temporal columns convert to.

use vstd::prelude::*;

verus! {

/// Whether February has 29 days in `year` of the proleptic Gregorian calendar.
pub open spec fn is_leap_year(year: int) -> bool {
    year % 4 == 0 && (year % 100 != 0 || year % 400 == 0)
}

/// The number of days of a month.
pub open spec fn days_in_month(year: int, month: int) -> int {
    if month == 2 {
        if is_leap_year(year) {
            29
        } else {
            28
        }
    } else if month == 4 || month == 6 || month == 9 || month == 11 {
        30
    } else {
        31
    }
}

/// Whether year, month and day name a day of the calendar, in the years that
/// a date can hold.
pub open spec fn is_calendar_date(year: int, month: int, day: int) -> bool {
    &&& -262_143 <= year <= 262_142
    &&& 1 <= month <= 12
    &&& 1 <= day <= days_in_month(year, month)
}

/// Whether hour, minute, second and microsecond name a time of day. In the
/// last second of a minute the microseconds may run on to 1,999,999, which
/// stands for a leap second.
pub open spec fn is_time_of_day(hour: int, minute: int, second: int, micro: int) -> bool {
    &&& 0 <= hour < 24
    &&& 0 <= minute < 60
    &&& 0 <= second < 60
    &&& 0 <= micro
    &&& micro < 1_000_000 || (second == 59 && micro < 2_000_000)
}

/// Asks `chrono::NaiveDate::from_ymd_opt` whether it makes a date of year,
/// month and day. It does so for the days of the proleptic Gregorian
/// calendar from the year -262143 to the year 262142, and the contract
/// claims exactly that.
#[verifier::external_body]
fn chrono_has_date(year: i32, month: u32, day: u32) -> (r: bool)
    ensures
        r == is_calendar_date(year as int, month as int, day as int),
{
    chrono::NaiveDate::from_ymd_opt(year, month, day).is_some()
}

/// Asks `chrono::NaiveTime::from_hms_micro_opt` whether it makes a time of
/// hour, minute, second and microsecond. It does so below 24 hours, 60
/// minutes, 60 seconds and 1,000,000 microseconds, and up to 1,999,999
/// microseconds where the second is 59; the contract claims exactly that.
#[verifier::external_body]
fn chrono_has_time(hour: u32, minute: u32, second: u32, micro: u32) -> (r: bool)
    ensures
        r == is_time_of_day(hour as int, minute as int, second as int, micro as int),
{
    chrono::NaiveTime::from_hms_micro_opt(hour, minute, second, micro).is_some()
}

/// A day of the proleptic Gregorian calendar.
#[derive(Clone, Copy, Debug, PartialEq, Eq)]
pub struct Date {
    year: i32,
    month: u32,
    day: u32,
}

impl View for Date {
    type V = (int, int, int);

    /// Year, month and day.
    closed spec fn view(&self) -> (int, int, int) {
        (self.year as int, self.month as int, self.day as int)
    }
}

impl Date {
    #[verifier::type_invariant]
    closed spec fn valid(self) -> bool {
        is_calendar_date(self.year as int, self.month as int, self.day as int)
    }

    /// Makes a date of year, month and day, if they name a day.
    pub fn from_ymd_opt(year: i32, month: u32, day: u32) -> (r: Option<Date>)
        ensures
            r is Some <==> is_calendar_date(year as int, month as int, day as int),
            r matches Some(date) ==> date@ == (year as int, month as int, day as int),
    {
        if chrono_has_date(year, month, day) {
            Some(Date { year, month, day })
        } else {
            None
        }
    }

    /// The year.
    pub fn year(&self) -> (r: i32)
        ensures
            r == self@.0,
            is_calendar_date(self@.0, self@.1, self@.2),
    {
        proof {
            use_type_invariant(self);
        }
        self.year
    }

    /// The month, from 1 to 12.
    pub fn month(&self) -> (r: u32)
        ensures
            r == self@.1,
            is_calendar_date(self@.0, self@.1, self@.2),
    {
        proof {
            use_type_invariant(self);
        }
        self.month
    }

    /// The day of the month, from 1.
    pub fn day(&self) -> (r: u32)
        ensures
            r == self@.2,
            is_calendar_date(self@.0, self@.1, self@.2),
    {
        proof {
            use_type_invariant(self);
        }
        self.day
    }
}

/// A time of day, to the microsecond.
#[derive(Clone, Copy, Debug, PartialEq, Eq)]
pub struct TimeOfDay {
    hour: u32,
    minute: u32,
    second: u32,
    micro: u32,
}

impl View for TimeOfDay {
    type V = (int, int, int, int);

    /// Hour, minute, second and microsecond.
    closed spec fn view(&self) -> (int, int, int, int) {
        (self.hour as int, self.minute as int, self.second as int, self.micro as int)
    }
}

impl TimeOfDay {
    #[verifier::type_invariant]
    closed spec fn valid(self) -> bool {
        is_time_of_day(
            self.hour as int,
            self.minute as int,
            self.second as int,
            self.micro as int,
        )
    }

    /// Makes a time of day of hour, minute, second and microsecond, if they
    /// name one.
    pub fn from_hms_micro_opt(hour: u32, minute: u32, second: u32, micro: u32) -> (r: Option<
        TimeOfDay,
    >)
        ensures
            r is Some <==> is_time_of_day(
                hour as int,
                minute as int,
                second as int,
                micro as int,
            ),
            r matches Some(time) ==> time@ == (
                hour as int,
                minute as int,
                second as int,
                micro as int,
            ),
    {
        if chrono_has_time(hour, minute, second, micro) {
            Some(TimeOfDay { hour, minute, second, micro })
        } else {
            None
        }
    }

    /// The hour, from 0 to 23.
    pub fn hour(&self) -> (r: u32)
        ensures
            r == self@.0,
            is_time_of_day(self@.0, self@.1, self@.2, self@.3),
    {
        proof {
            use_type_invariant(self);
        }
        self.hour
    }

    /// The minute, from 0 to 59.
    pub fn minute(&self) -> (r: u32)
        ensures
            r == self@.1,
            is_time_of_day(self@.0, self@.1, self@.2, self@.3),
    {
        proof {
            use_type_invariant(self);
        }
        self.minute
    }

    /// The second, from 0 to 59.
    pub fn second(&self) -> (r: u32)
        ensures
            r == self@.2,
            is_time_of_day(self@.0, self@.1, self@.2, self@.3),
    {
        proof {
            use_type_invariant(self);
        }
        self.second
    }

    /// The microseconds; from 1,000,000 on they stand for a leap second.
    pub fn microsecond(&self) -> (r: u32)
        ensures
            r == self@.3,
            is_time_of_day(self@.0, self@.1, self@.2, self@.3),
    {
        proof {
            use_type_invariant(self);
        }
        self.micro
    }
}

/// A day and a time of day.
#[derive(Clone, Copy, Debug, PartialEq, Eq)]
pub struct DateTime {
    date: Date,
    time: TimeOfDay,
}

impl View for DateTime {
    type V = (int, int, int, int, int, int, int);

    /// Year, month, day, hour, minute, second and microsecond.
    closed spec fn view(&self) -> (int, int, int, int, int, int, int) {
        (
            self.date@.0,
            self.date@.1,
            self.date@.2,
            self.time@.0,
            self.time@.1,
            self.time@.2,
            self.time@.3,
        )
    }
}

impl DateTime {
    /// Makes a day and a time of day into one.
    pub fn new(date: Date, time: TimeOfDay) -> (r: DateTime)
        ensures
            r@ == (date@.0, date@.1, date@.2, time@.0, time@.1, time@.2, time@.3),
    {
        DateTime { date, time }
    }

    /// The day.
    pub fn date(&self) -> (r: Date)
        ensures
            r@ == (self@.0, self@.1, self@.2),
    {
        self.date
    }

    /// The time of day.
    pub fn time(&self) -> (r: TimeOfDay)
        ensures
            r@ == (self@.3, self@.4, self@.5, self@.6),
    {
        self.time
    }
}

/// A span of time that is not negative, to the nanosecond.
#[derive(Clone, Copy, Debug, PartialEq, Eq)]
pub struct Duration {
    secs: u64,
    nanos: u32,
}

impl View for Duration {
    type V = nat;

    /// The span in nanoseconds.
    closed spec fn view(&self) -> nat {
        (self.secs * 1_000_000_000 + self.nanos) as nat
    }
}

impl Duration {
    #[verifier::type_invariant]
    closed spec fn valid(self) -> bool {
        self.nanos < 1_000_000_000
    }

    /// Makes a span of whole seconds and nanoseconds. A thousand million
    /// nanoseconds or more are carried over to the seconds; where the seconds
    /// do not hold the sum, there is no such span.
    pub fn new(secs: u64, nanos: u32) -> (r: Option<Duration>)
        ensures
            r is Some <==> secs + nanos / 1_000_000_000 <= u64::MAX,
            r matches Some(d) ==> d@ == secs * 1_000_000_000 + nanos,
    {
        let carry: u64 = (nanos / 1_000_000_000) as u64;
        if secs <= u64::MAX - carry {
            Some(Duration { secs: secs + carry, nanos: nanos % 1_000_000_000 })
        } else {
            None
        }
    }

    /// The whole seconds of the span.
    pub fn as_secs(&self) -> (r: u64)
        ensures
            r == self@ / 1_000_000_000,
    {
        proof {
            use_type_invariant(self);
        }
        self.secs
    }

    /// The nanoseconds beyond the whole seconds.
    pub fn subsec_nanos(&self) -> (r: u32)
        ensures
            r == self@ % 1_000_000_000,
    {
        proof {
            use_type_invariant(self);
        }
        self.nanos
    }
}

/// A span of time with a sign, to the microsecond.
#[derive(Clone, Copy, Debug, PartialEq, Eq)]
pub struct SignedDuration {
    negative: bool,
    secs: u64,
    micros: u32,
}

impl View for SignedDuration {
    type V = int;

    /// The span in microseconds.
    closed spec fn view(&self) -> int {
        if self.negative {
            -(self.secs * 1_000_000 + self.micros)
        } else {
            self.secs * 1_000_000 + self.micros
        }
    }
}

impl SignedDuration {
    #[verifier::type_invariant]
    closed spec fn valid(self) -> bool {
        &&& self.micros < 1_000_000
        &&& self.negative ==> self.secs != 0 || self.micros != 0
    }

    /// Makes a span of a sign, whole seconds and microseconds. A million
    /// microseconds or more are carried over to the seconds; where the
    /// seconds do not hold the sum, there is no such span. A span of zero
    /// has no sign.
    pub fn new(negative: bool, secs: u64, micros: u32) -> (r: Option<SignedDuration>)
        ensures
            r is Some <==> secs + micros / 1_000_000 <= u64::MAX,
            r matches Some(d) ==> d@ == if negative {
                -(secs * 1_000_000 + micros)
            } else {
                secs * 1_000_000 + micros
            },
    {
        let carry: u64 = (micros / 1_000_000) as u64;
        if secs <= u64::MAX - carry {
            let secs: u64 = secs + carry;
            let micros: u32 = micros % 1_000_000;
            Some(SignedDuration { negative: negative && (secs != 0 || micros != 0), secs, micros })
        } else {
            None
        }
    }

    /// Whether the span is below zero.
    pub fn is_negative(&self) -> (r: bool)
        ensures
            r == (self@ < 0),
    {
        proof {
            use_type_invariant(self);
        }
        self.negative
    }

    /// The whole seconds of the span, without its sign.
    pub fn whole_seconds(&self) -> (r: u64)
        ensures
            r == (if self@ < 0 { -self@ } else { self@ }) / 1_000_000,
    {
        proof {
            use_type_invariant(self);
        }
        self.secs
    }

    /// The microseconds beyond the whole seconds, without the sign.
    pub fn subsec_micros(&self) -> (r: u32)
        ensures
            r == (if self@ < 0 { -self@ } else { self@ }) % 1_000_000,
    {
        proof {
            use_type_invariant(self);
        }
        self.micros
    }
}

} // verus!
