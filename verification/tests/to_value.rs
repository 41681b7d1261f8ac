use mysql_common::value::convert::timespec::{timespec_fields_of, tm_to_value, Tm};
use mysql_common::value::convert::to_value::span_to_value;
use mysql_common::value::convert::{from_value_opt, ConvIr, FromValueError, ToValue, Uuid, UuidIr};
use mysql_common::value::datetime::{Date, DateTime, Duration, SignedDuration, TimeOfDay};
use mysql_common::value::Value;

#[test]
fn integers_are_sent_signed_where_they_fit() {
    assert_eq!(Value::from(-5i8), Value::Int(-5));
    assert_eq!(Value::from(200u8), Value::Int(200));
    assert_eq!(Value::from(i16::MIN), Value::Int(-32768));
    assert_eq!(Value::from(u16::MAX), Value::Int(65535));
    assert_eq!(Value::from(i32::MIN), Value::Int(-2147483648));
    assert_eq!(Value::from(u32::MAX), Value::Int(4294967295));
    assert_eq!(Value::from(i64::MIN), Value::Int(i64::MIN));
    assert_eq!(Value::from(-1isize), Value::Int(-1));
    assert_eq!(Value::from(7usize), Value::Int(7));
    assert_eq!(Value::from(7u64), Value::Int(7));
    assert_eq!(Value::from(i64::MAX as u64), Value::Int(i64::MAX));
    assert_eq!(Value::from(i64::MAX as u64 + 1), Value::UInt(9223372036854775808));
    assert_eq!(Value::from(u64::MAX), Value::UInt(u64::MAX));
    assert_eq!(Value::from(usize::MAX), Value::from(usize::MAX as u64));
    assert_eq!(5u8.to_value(), Value::Int(5));
    assert_eq!(u64::MAX.to_value(), Value::UInt(u64::MAX));
    let into: Value = 12i32.into();
    assert_eq!(into, Value::Int(12));
}

#[test]
fn truth_values_are_sent_as_zero_and_one() {
    assert_eq!(Value::from(false), Value::Int(0));
    assert_eq!(Value::from(true), Value::Int(1));
    assert_eq!(true.to_value(), Value::Int(1));
}

#[test]
fn text_and_bytes_are_sent_as_their_bytes() {
    assert_eq!(Value::from("ada"), Value::Bytes(b"ada".to_vec()));
    assert_eq!(Value::from("grüße".to_string()), Value::Bytes("grüße".as_bytes().to_vec()));
    assert_eq!(
        "grüße".to_string().to_value(),
        Value::Bytes(vec![103, 114, 195, 188, 195, 159, 101])
    );
    assert_eq!(Value::from(vec![0u8, 255]), Value::Bytes(vec![0, 255]));
    assert_eq!(Value::from(&[1u8, 2, 3][..]), Value::Bytes(vec![1, 2, 3]));
    assert_eq!(Value::from([1u8, 2, 3]), Value::Bytes(vec![1, 2, 3]));
    assert_eq!(Value::from([0u8; 0]), Value::Bytes(Vec::new()));
    assert_eq!(Value::from([9u8; 32]), Value::Bytes(vec![9; 32]));
    assert_eq!(vec![4u8].to_value(), Value::Bytes(vec![4]));
    assert_eq!("ada".to_value(), Value::Bytes(b"ada".to_vec()));
    assert_eq!((&[7u8, 8][..]).to_value(), Value::Bytes(vec![7, 8]));
    assert_eq!([4u8, 5].to_value(), Value::Bytes(vec![4, 5]));
}

#[test]
fn none_is_sent_as_null() {
    assert_eq!(Value::from(None::<i32>), Value::NULL);
    assert_eq!(Value::from(Some(3i32)), Value::Int(3));
    assert_eq!(Value::from(Some("x")), Value::Bytes(b"x".to_vec()));
    assert_eq!(None::<u8>.to_value(), Value::NULL);
    assert_eq!(Some(u64::MAX).to_value(), Value::UInt(u64::MAX));
    assert_eq!(Some(Some(false)).to_value(), Value::Int(0));
    assert_eq!(Value::NULL.to_value(), Value::NULL);
    assert_eq!(Some(Value::Bytes(vec![1])).to_value(), Value::Bytes(vec![1]));
}

#[test]
fn days_and_times_are_sent_as_dates() {
    let date = Date::from_ymd_opt(2024, 2, 29).unwrap();
    let time = TimeOfDay::from_hms_micro_opt(10, 20, 30, 500_000).unwrap();
    assert_eq!(date.to_value(), Value::Date(2024, 2, 29, 0, 0, 0, 0));
    assert_eq!(
        DateTime::new(date, time).to_value(),
        Value::Date(2024, 2, 29, 10, 20, 30, 500_000)
    );
    assert_eq!(time.to_value(), Value::Time(false, 0, 10, 20, 30, 500_000));
    assert_eq!(Value::from(time), Value::Time(false, 0, 10, 20, 30, 500_000));
    assert_eq!(
        Date::from_ymd_opt(1000, 1, 1).unwrap().to_value(),
        Value::Date(1000, 1, 1, 0, 0, 0, 0)
    );
    assert_eq!(
        Date::from_ymd_opt(9999, 12, 31).unwrap().to_value(),
        Value::Date(9999, 12, 31, 0, 0, 0, 0)
    );
    let leap = TimeOfDay::from_hms_micro_opt(23, 59, 59, 1_999_999).unwrap();
    assert_eq!(leap.to_value(), Value::Time(false, 0, 23, 59, 59, 1_999_999));
}

#[test]
fn a_day_that_was_sent_converts_back() {
    let date = Date::from_ymd_opt(2024, 2, 29).unwrap();
    let time = TimeOfDay::from_hms_micro_opt(10, 20, 30, 500_000).unwrap();
    let both = DateTime::new(date, time);
    assert_eq!(from_value_opt::<DateTime>(both.to_value()).unwrap(), both);
    assert_eq!(from_value_opt::<Date>(date.to_value()).unwrap(), date);
    assert_eq!(from_value_opt::<TimeOfDay>(time.to_value()).unwrap(), time);
}

#[test]
fn durations_are_sent_in_days_hours_minutes_and_seconds() {
    let d = Duration::new(90_061, 1_500).unwrap();
    assert_eq!(Value::from(d), Value::Time(false, 1, 1, 1, 1, 2));
    assert_eq!(d.to_value(), Value::Time(false, 1, 1, 1, 1, 2));
    assert_eq!(
        Value::from(Duration::new(59, 499).unwrap()),
        Value::Time(false, 0, 0, 0, 59, 0)
    );
    assert_eq!(
        Value::from(Duration::new(59, 500).unwrap()),
        Value::Time(false, 0, 0, 0, 59, 1)
    );
    assert_eq!(
        Value::from(Duration::new(3_599, 999_999_500).unwrap()),
        Value::Time(false, 0, 0, 59, 59, 1_000_000)
    );
    assert_eq!(
        Value::from(Duration::new(86_400 * 4_294_967_296 + 5, 0).unwrap()),
        Value::Time(false, 0, 0, 0, 5, 0)
    );
    let s = SignedDuration::new(true, 3_020_399, 7).unwrap();
    assert_eq!(Value::from(s), Value::Time(true, 34, 22, 59, 59, 7));
    assert_eq!(s.to_value(), Value::Time(true, 34, 22, 59, 59, 7));
    assert_eq!(
        Value::from(SignedDuration::new(false, 0, 0).unwrap()),
        Value::Time(false, 0, 0, 0, 0, 0)
    );
    assert_eq!(
        Value::from(SignedDuration::new(true, 0, 0).unwrap()),
        Value::Time(false, 0, 0, 0, 0, 0)
    );
    assert_eq!(span_to_value(true, 86_399, 999_999), Value::Time(true, 0, 23, 59, 59, 999_999));
    assert_eq!(span_to_value(false, 86_400, 0), Value::Time(false, 1, 0, 0, 0, 0));
}

#[test]
fn a_duration_that_was_sent_converts_back() {
    let s = SignedDuration::new(true, 3_020_399, 7).unwrap();
    assert_eq!(from_value_opt::<SignedDuration>(s.to_value()).unwrap(), s);
    let d = Duration::new(90_061, 2_000).unwrap();
    assert_eq!(from_value_opt::<Duration>(d.to_value()).unwrap(), d);
}

#[test]
fn sixteen_bytes_are_an_identifier() {
    let bytes: Vec<u8> = (1..=16).collect();
    let id = from_value_opt::<Uuid>(Value::Bytes(bytes.clone())).unwrap();
    assert_eq!(&id.as_bytes()[..], &bytes[..]);
    assert_eq!(id, Uuid::from_bytes([1, 2, 3, 4, 5, 6, 7, 8, 9, 10, 11, 12, 13, 14, 15, 16]));
    assert_eq!(Value::from(id), Value::Bytes(bytes.clone()));
    assert_eq!(id.to_value(), Value::Bytes(bytes.clone()));
    let ir = <UuidIr as ConvIr<Uuid>>::new(Value::Bytes(bytes.clone())).unwrap();
    assert_eq!(ir.rollback(), Value::Bytes(bytes));
    for wrong in vec![
        Value::Bytes(vec![0; 15]),
        Value::Bytes(vec![0; 17]),
        Value::Bytes(Vec::new()),
        Value::Bytes(b"a1a2a3a4-b1b2-c1c2-d1d2-d3d4d5d6d7d8".to_vec()),
        Value::Int(1),
        Value::NULL,
    ] {
        match from_value_opt::<Uuid>(wrong.clone()) {
            Err(FromValueError(back)) => assert_eq!(back, wrong),
            Ok(_) => panic!("made an identifier of what is not sixteen bytes"),
        }
    }
}

#[test]
fn a_date_gives_its_calendar_fields() {
    assert_eq!(
        timespec_fields_of(&Value::Date(2024, 2, 29, 10, 20, 30, 5)),
        Some(Tm {
            tm_sec: 30,
            tm_min: 20,
            tm_hour: 10,
            tm_mday: 29,
            tm_mon: 1,
            tm_year: 124,
            tm_nsec: 5_000,
        })
    );
    assert_eq!(
        timespec_fields_of(&Value::Date(0, 0, 0, 0, 0, 0, 999_999)),
        Some(Tm {
            tm_sec: 0,
            tm_min: 0,
            tm_hour: 0,
            tm_mday: 0,
            tm_mon: -1,
            tm_year: -1900,
            tm_nsec: 999_999_000,
        })
    );
    assert_eq!(timespec_fields_of(&Value::Date(2024, 2, 29, 10, 20, 30, 1_000_000)), None);
    assert_eq!(timespec_fields_of(&Value::Int(0)), None);
    assert_eq!(timespec_fields_of(&Value::NULL), None);
}

#[test]
fn a_text_gives_the_calendar_fields_that_it_writes() {
    assert_eq!(
        timespec_fields_of(&Value::Bytes(b"2024-02-29 10:20:30".to_vec())),
        Some(Tm {
            tm_sec: 30,
            tm_min: 20,
            tm_hour: 10,
            tm_mday: 29,
            tm_mon: 1,
            tm_year: 124,
            tm_nsec: 0,
        })
    );
    assert_eq!(
        timespec_fields_of(&Value::Bytes(b"1970-01-01".to_vec())),
        Some(Tm {
            tm_sec: 0,
            tm_min: 0,
            tm_hour: 0,
            tm_mday: 1,
            tm_mon: 0,
            tm_year: 70,
            tm_nsec: 0,
        })
    );
    assert_eq!(
        from_value_opt::<Tm>(Value::Bytes(b"1970-01-01".to_vec())).unwrap().tm_year,
        70
    );
    match from_value_opt::<Tm>(Value::Bytes(b"yesterday".to_vec())) {
        Err(FromValueError(back)) => assert_eq!(back, Value::Bytes(b"yesterday".to_vec())),
        Ok(_) => panic!("read calendar fields from a text that writes none"),
    }
    assert_eq!(timespec_fields_of(&Value::Bytes(b"2024-13-01".to_vec())), None);
    assert_eq!(timespec_fields_of(&Value::Bytes(b"10:20:30".to_vec())), None);
    assert_eq!(timespec_fields_of(&Value::Bytes(b"".to_vec())), None);
    assert_eq!(timespec_fields_of(&Value::Bytes(vec![0x32, 0xff])), None);
    let wide = "\u{ff12}\u{ff10}\u{ff12}\u{ff14}-02-29";
    assert_eq!(timespec_fields_of(&Value::Bytes(wide.as_bytes().to_vec())), None);
}

#[test]
fn calendar_fields_are_sent_as_a_date() {
    let tm = Tm {
        tm_sec: 30,
        tm_min: 20,
        tm_hour: 10,
        tm_mday: 29,
        tm_mon: 1,
        tm_year: 124,
        tm_nsec: 5_999,
    };
    assert_eq!(tm_to_value(&tm), Some(Value::Date(2024, 2, 29, 10, 20, 30, 5)));
    assert_eq!(tm_to_value(&Tm { tm_year: 63_636, ..tm }), None);
    assert_eq!(tm_to_value(&Tm { tm_year: -1_901, ..tm }), None);
    assert_eq!(tm_to_value(&Tm { tm_mon: 12, ..tm }), None);
    assert_eq!(tm_to_value(&Tm { tm_mday: 0, ..tm }), None);
    assert_eq!(tm_to_value(&Tm { tm_nsec: 1_000_000_000, ..tm }), None);
    assert_eq!(
        tm_to_value(&Tm { tm_sec: 60, ..tm }),
        Some(Value::Date(2024, 2, 29, 10, 20, 60, 5))
    );
}
