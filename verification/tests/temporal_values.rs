use mysql_common::value::convert::{from_value, from_value_opt, ConvIr, FromValueError, ParseIr};
use mysql_common::value::datetime::{Date, DateTime, Duration, SignedDuration, TimeOfDay};
use mysql_common::value::Value;

fn text(s: &str) -> Value {
    Value::Bytes(s.as_bytes().to_vec())
}

fn fields(t: &DateTime) -> (i32, u32, u32, u32, u32, u32, u32) {
    (
        t.date().year(),
        t.date().month(),
        t.date().day(),
        t.time().hour(),
        t.time().minute(),
        t.time().second(),
        t.time().microsecond(),
    )
}

#[test]
fn a_text_converts_to_a_day_and_a_time() {
    let t = from_value_opt::<DateTime>(text("2024-02-29 10:20:30.5")).unwrap();
    assert_eq!(fields(&t), (2024, 2, 29, 10, 20, 30, 500000));
    let t = from_value::<DateTime>(text("2024-02-29 10:20:30"));
    assert_eq!(fields(&t), (2024, 2, 29, 10, 20, 30, 0));
    let t = from_value::<DateTime>(text("2024-02-29"));
    assert_eq!(fields(&t), (2024, 2, 29, 0, 0, 0, 0));
    let t = from_value::<DateTime>(text("0001-01-01 00:00:00.000001"));
    assert_eq!(fields(&t), (1, 1, 1, 0, 0, 0, 1));
}

#[test]
fn a_date_converts_to_a_day_and_a_time() {
    let t = from_value_opt::<DateTime>(Value::Date(2024, 2, 29, 23, 59, 59, 999_999)).unwrap();
    assert_eq!(fields(&t), (2024, 2, 29, 23, 59, 59, 999_999));
    let expected = DateTime::new(
        Date::from_ymd_opt(2024, 2, 29).unwrap(),
        TimeOfDay::from_hms_micro_opt(23, 59, 59, 999_999).unwrap(),
    );
    assert_eq!(t, expected);
    let leap = from_value::<DateTime>(Value::Date(2016, 12, 31, 23, 59, 59, 1_500_000));
    assert_eq!(fields(&leap), (2016, 12, 31, 23, 59, 59, 1_500_000));
}

#[test]
fn what_is_no_day_or_no_time_does_not_convert() {
    let wrong = vec![
        Value::Date(2024, 13, 1, 0, 0, 0, 0),
        Value::Date(2024, 0, 1, 0, 0, 0, 0),
        Value::Date(2024, 1, 0, 0, 0, 0, 0),
        Value::Date(2023, 2, 29, 0, 0, 0, 0),
        Value::Date(1900, 2, 29, 0, 0, 0, 0),
        Value::Date(2024, 4, 31, 0, 0, 0, 0),
        Value::Date(2024, 1, 1, 24, 0, 0, 0),
        Value::Date(2024, 1, 1, 0, 60, 0, 0),
        Value::Date(2024, 1, 1, 0, 0, 60, 0),
        Value::Date(2024, 1, 1, 0, 0, 0, 1_000_000),
        Value::Date(2024, 1, 1, 0, 0, 59, 2_000_000),
        Value::Date(2024, 1, 1, 0, 0, 0, u32::MAX),
        text("2024-13-01 00:00:00"),
        text("2023-02-29"),
        text("2024-01-01 24:00:00"),
        text("2024-01-01 00:00:60"),
        text("2024-1-1"),
        text("tomorrow"),
        Value::NULL,
        Value::Int(20240101),
        Value::Time(false, 0, 1, 0, 0, 0),
    ];
    for value in wrong {
        match from_value_opt::<DateTime>(value.clone()) {
            Err(FromValueError(back)) => assert_eq!(back, value),
            Ok(_) => panic!("converted a value that names no day and time"),
        }
    }
}

#[test]
fn leap_years_follow_the_gregorian_rule() {
    assert!(from_value_opt::<Date>(Value::Date(2000, 2, 29, 0, 0, 0, 0)).is_ok());
    assert!(from_value_opt::<Date>(Value::Date(2024, 2, 29, 0, 0, 0, 0)).is_ok());
    assert!(from_value_opt::<Date>(Value::Date(0, 2, 29, 0, 0, 0, 0)).is_ok());
    assert!(from_value_opt::<Date>(Value::Date(1900, 2, 29, 0, 0, 0, 0)).is_err());
    assert!(from_value_opt::<Date>(Value::Date(2100, 2, 29, 0, 0, 0, 0)).is_err());
    assert!(from_value_opt::<Date>(Value::Date(2023, 2, 29, 0, 0, 0, 0)).is_err());
    assert!(from_value_opt::<Date>(Value::Date(65535, 12, 31, 0, 0, 0, 0)).is_ok());
    for month in 1..=12u8 {
        let days = match month {
            2 => 28,
            4 | 6 | 9 | 11 => 30,
            _ => 31,
        };
        assert!(from_value_opt::<Date>(Value::Date(2023, month, days, 0, 0, 0, 0)).is_ok());
        assert!(from_value_opt::<Date>(Value::Date(2023, month, days + 1, 0, 0, 0, 0)).is_err());
    }
    assert!(Date::from_ymd_opt(-4, 2, 29).is_some());
    assert!(Date::from_ymd_opt(262_142, 12, 31).is_some());
    assert!(Date::from_ymd_opt(262_143, 1, 1).is_none());
    assert!(Date::from_ymd_opt(-262_143, 1, 1).is_some());
    assert!(Date::from_ymd_opt(-262_144, 12, 31).is_none());
}

#[test]
fn a_day_is_read_without_the_time() {
    let d = from_value_opt::<Date>(text("2024-02-29")).unwrap();
    assert_eq!((d.year(), d.month(), d.day()), (2024, 2, 29));
    let d = from_value_opt::<Date>(text("2024-02-29 10:20:30.5")).unwrap();
    assert_eq!((d.year(), d.month(), d.day()), (2024, 2, 29));
    let d = from_value_opt::<Date>(text("2024-02-29 99:99:99")).unwrap();
    assert_eq!(d, Date::from_ymd_opt(2024, 2, 29).unwrap());
    let d = from_value_opt::<Date>(Value::Date(2024, 2, 29, 77, 88, 99, 0)).unwrap();
    assert_eq!((d.year(), d.month(), d.day()), (2024, 2, 29));
    assert!(from_value_opt::<Date>(text("2024-02-30")).is_err());
    assert!(from_value_opt::<Date>(Value::Time(false, 0, 0, 0, 0, 0)).is_err());
    let ir = <ParseIr<Date> as ConvIr<Date>>::new(text("2024-02-29 10:20:30")).unwrap();
    assert_eq!(ir.rollback(), text("2024-02-29 10:20:30"));
}

#[test]
fn a_time_of_day_is_read() {
    let t = from_value_opt::<TimeOfDay>(Value::Time(false, 0, 23, 59, 58, 7)).unwrap();
    assert_eq!((t.hour(), t.minute(), t.second(), t.microsecond()), (23, 59, 58, 7));
    let t = from_value_opt::<TimeOfDay>(text("10:20:30.25")).unwrap();
    assert_eq!((t.hour(), t.minute(), t.second(), t.microsecond()), (10, 20, 30, 250_000));
    let t = from_value_opt::<TimeOfDay>(text("010:20:30")).unwrap();
    assert_eq!(t, TimeOfDay::from_hms_micro_opt(10, 20, 30, 0).unwrap());
    let t = from_value::<TimeOfDay>(Value::Time(false, 0, 23, 59, 59, 1_999_999));
    assert_eq!(t.microsecond(), 1_999_999);
    let wrong = vec![
        Value::Time(true, 0, 1, 0, 0, 0),
        Value::Time(false, 1, 1, 0, 0, 0),
        Value::Time(false, 0, 24, 0, 0, 0),
        Value::Time(false, 0, 0, 60, 0, 0),
        Value::Time(false, 0, 0, 0, 60, 0),
        Value::Time(false, 0, 0, 0, 0, 1_000_000),
        Value::Time(false, 0, 0, 0, 59, 2_000_000),
        Value::Time(false, 0, 0, 0, 0, u32::MAX),
        text("-10:20:30"),
        text("24:00:00"),
        text("100:00:00"),
        text("10:20"),
        Value::Date(2024, 1, 1, 1, 1, 1, 0),
        Value::NULL,
    ];
    for value in wrong {
        match from_value_opt::<TimeOfDay>(value.clone()) {
            Err(FromValueError(back)) => assert_eq!(back, value),
            Ok(_) => panic!("converted a value that names no time of day"),
        }
    }
}

#[test]
fn a_negative_text_converts_to_a_signed_duration_only() {
    let d = from_value_opt::<SignedDuration>(text("-838:59:59")).unwrap();
    assert!(d.is_negative());
    assert_eq!(d.whole_seconds(), 838 * 3600 + 59 * 60 + 59);
    assert_eq!(d.subsec_micros(), 0);
    assert_eq!(d, SignedDuration::new(true, 3_020_399, 0).unwrap());
    match from_value_opt::<Duration>(text("-838:59:59")) {
        Err(FromValueError(back)) => assert_eq!(back, text("-838:59:59")),
        Ok(_) => panic!("made a duration without sign of a negative one"),
    }
    assert!(from_value_opt::<Duration>(Value::Time(true, 0, 1, 0, 0, 0)).is_err());
    assert!(from_value_opt::<Duration>(Value::Time(true, 0, 0, 0, 0, 0)).is_err());
    assert!(from_value_opt::<Duration>(text("-00:00:00")).is_err());
}

#[test]
fn a_duration_adds_up_its_fields() {
    let d = from_value_opt::<Duration>(Value::Time(false, 1, 2, 3, 4, 5)).unwrap();
    assert_eq!(d.as_secs(), 86_400 + 2 * 3_600 + 3 * 60 + 4);
    assert_eq!(d.subsec_nanos(), 5_000);
    assert_eq!(d, Duration::new(93_784, 5_000).unwrap());
    let d = from_value_opt::<Duration>(text("838:59:59.000001")).unwrap();
    assert_eq!((d.as_secs(), d.subsec_nanos()), (3_020_399, 1_000));
    let d = from_value_opt::<Duration>(text("12:34:56.5")).unwrap();
    assert_eq!((d.as_secs(), d.subsec_nanos()), (45_296, 500_000_000));
    let d = from_value::<Duration>(Value::Time(false, u32::MAX, 255, 255, 255, u32::MAX));
    assert_eq!(
        d.as_secs(),
        u32::MAX as u64 * 86_400 + 255 * 3_600 + 255 * 60 + 255 + 4_294
    );
    assert_eq!(d.subsec_nanos(), 967_295_000);
    let d = from_value::<Duration>(Value::Time(false, 0, 0, 0, 0, 1_500_000));
    assert_eq!((d.as_secs(), d.subsec_nanos()), (1, 500_000_000));
    assert!(from_value_opt::<Duration>(Value::Int(5)).is_err());
    assert!(from_value_opt::<Duration>(text("12:34")).is_err());
}

#[test]
fn a_signed_duration_adds_up_its_fields() {
    let d = from_value_opt::<SignedDuration>(Value::Time(true, 1, 2, 3, 4, 5)).unwrap();
    assert!(d.is_negative());
    assert_eq!((d.whole_seconds(), d.subsec_micros()), (93_784, 5));
    let d = from_value_opt::<SignedDuration>(Value::Time(false, 1, 2, 3, 4, 5)).unwrap();
    assert!(!d.is_negative());
    assert_eq!((d.whole_seconds(), d.subsec_micros()), (93_784, 5));
    let d = from_value_opt::<SignedDuration>(text("12:34:56.5")).unwrap();
    assert_eq!((d.is_negative(), d.whole_seconds(), d.subsec_micros()), (false, 45_296, 500_000));
    let zero = from_value_opt::<SignedDuration>(Value::Time(true, 0, 0, 0, 0, 0)).unwrap();
    assert!(!zero.is_negative());
    assert_eq!(zero, SignedDuration::new(false, 0, 0).unwrap());
    let d = from_value::<SignedDuration>(Value::Time(true, 0, 0, 0, 0, 2_000_001));
    assert_eq!((d.is_negative(), d.whole_seconds(), d.subsec_micros()), (true, 2, 1));
    assert!(from_value_opt::<SignedDuration>(Value::NULL).is_err());
    assert!(from_value_opt::<SignedDuration>(text("x")).is_err());
    let ir = <ParseIr<SignedDuration> as ConvIr<SignedDuration>>::new(text("-838:59:59"))
        .unwrap();
    assert_eq!(ir.rollback(), text("-838:59:59"));
}

#[test]
fn durations_carry_over() {
    assert_eq!(Duration::new(1, 2_500_000_000).unwrap(), Duration::new(3, 500_000_000).unwrap());
    assert!(Duration::new(u64::MAX, 1_000_000_000).is_none());
    assert!(Duration::new(u64::MAX, 999_999_999).is_some());
    assert_eq!(
        SignedDuration::new(true, 1, 2_500_000).unwrap(),
        SignedDuration::new(true, 3, 500_000).unwrap()
    );
    assert!(SignedDuration::new(false, u64::MAX, 1_000_000).is_none());
}
