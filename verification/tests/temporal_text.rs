use mysql_common::value::temporal::{
    datetime_kind_of, parse_micros, parse_mysql_datetime_string, parse_mysql_time_string,
    time_kind_of, DateTimeKind, TimeKind,
};
use regex::bytes::Regex;

/// A small generator of numbers, the same on every run.
struct Numbers(u64);

impl Numbers {
    fn next(&mut self) -> u64 {
        self.0 = self.0.wrapping_mul(6364136223846793005).wrapping_add(1442695040888963407);
        self.0 >> 33
    }

    fn below(&mut self, bound: u64) -> u32 {
        (self.next() % bound) as u32
    }
}

#[test]
fn a_date_is_read() {
    assert_eq!(
        parse_mysql_datetime_string(b"2024-02-29"),
        Some((2024, 2, 29, 0, 0, 0, 0))
    );
    assert_eq!(parse_mysql_datetime_string(b"0000-00-00"), Some((0, 0, 0, 0, 0, 0, 0)));
    assert_eq!(parse_mysql_datetime_string(b"9999-99-99"), Some((9999, 99, 99, 0, 0, 0, 0)));
    assert_eq!(datetime_kind_of(b"2024-02-29"), Some(DateTimeKind::Ymd));
}

#[test]
fn a_date_with_a_time_is_read() {
    assert_eq!(
        parse_mysql_datetime_string(b"2024-02-29 10:20:30"),
        Some((2024, 2, 29, 10, 20, 30, 0))
    );
    assert_eq!(
        parse_mysql_datetime_string(b"1234-12-12 12:12:12.123456"),
        Some((1234, 12, 12, 12, 12, 12, 123456))
    );
    assert_eq!(datetime_kind_of(b"2024-02-29 10:20:30"), Some(DateTimeKind::YmdHms));
    assert_eq!(datetime_kind_of(b"2024-02-29 10:20:30.1"), Some(DateTimeKind::YmdHmsMs));
}

#[test]
fn a_fraction_is_padded_with_zeros_on_the_right() {
    assert_eq!(
        parse_mysql_datetime_string(b"2024-02-29 10:20:30.5"),
        Some((2024, 2, 29, 10, 20, 30, 500000))
    );
    assert_eq!(
        parse_mysql_datetime_string(b"2024-02-29 10:20:30.123"),
        Some((2024, 2, 29, 10, 20, 30, 123000))
    );
    assert_eq!(
        parse_mysql_datetime_string(b"2024-02-29 10:20:30.123456"),
        Some((2024, 2, 29, 10, 20, 30, 123456))
    );
    assert_eq!(
        parse_mysql_datetime_string(b"2024-02-29 10:20:30.000001"),
        Some((2024, 2, 29, 10, 20, 30, 1))
    );
    assert_eq!(
        parse_mysql_datetime_string(b"2024-02-29 10:20:30.05"),
        Some((2024, 2, 29, 10, 20, 30, 50000))
    );
    assert_eq!(
        parse_mysql_datetime_string(b"2024-02-29 10:20:30.0"),
        Some((2024, 2, 29, 10, 20, 30, 0))
    );
    assert_eq!(parse_micros(b"5"), 500000);
    assert_eq!(parse_micros(b"123"), 123000);
    assert_eq!(parse_micros(b"123456"), 123456);
    assert_eq!(parse_micros(b"000001"), 1);
    assert_eq!(parse_micros(b"00001"), 10);
    assert_eq!(parse_micros(b"0"), 0);
    assert_eq!(parse_micros(b"999999"), 999999);
}

#[test]
fn other_shapes_are_no_date() {
    let others: Vec<&[u8]> = vec![
        b"",
        b"2024-02-2",
        b"2024-02-290",
        b"2024/02/29",
        b"24-02-29",
        b"2024-02-29 ",
        b"2024-02-29T10:20:30",
        b"2024-02-29 10:20",
        b"2024-02-29 10:20:3",
        b"2024-02-29 10:20:30.",
        b"2024-02-29 10:20:30.1234567",
        b"2024-02-29 10:20:30,5",
        b"2024-02-29 10-20-30",
        b"2024-02-29 10:20:30.12a",
        b"+024-02-29",
        b"2024-02-29 1a:20:30",
        b" 2024-02-29",
        b"2024-02-29\n",
    ];
    for text in others {
        assert_eq!(parse_mysql_datetime_string(text), None);
        assert_eq!(datetime_kind_of(text), None);
    }
}

#[test]
fn only_ascii_digits_are_digits() {
    assert_eq!(parse_mysql_datetime_string("2024-02-29 10:20:30.\u{663}".as_bytes()), None);
    assert_eq!(parse_mysql_datetime_string("2024-02-29 10:20:3\u{663}".as_bytes()), None);
    assert_eq!(parse_mysql_time_string("\u{661}\u{662}:34:56.5".as_bytes()), None);
    assert_eq!(parse_mysql_time_string("12:34:56.\u{ff15}".as_bytes()), None);
}

#[test]
fn a_duration_is_read() {
    assert_eq!(parse_mysql_time_string(b"12:34:56"), Some((false, 12, 34, 56, 0)));
    assert_eq!(parse_mysql_time_string(b"-12:34:56"), Some((true, 12, 34, 56, 0)));
    assert_eq!(parse_mysql_time_string(b"838:59:59"), Some((false, 838, 59, 59, 0)));
    assert_eq!(parse_mysql_time_string(b"-838:59:59"), Some((true, 838, 59, 59, 0)));
    assert_eq!(parse_mysql_time_string(b"00:00:00"), Some((false, 0, 0, 0, 0)));
    assert_eq!(parse_mysql_time_string(b"99:59:59"), Some((false, 99, 59, 59, 0)));
    assert_eq!(parse_mysql_time_string(b"899:59:59"), Some((false, 899, 59, 59, 0)));
    assert_eq!(
        parse_mysql_time_string(b"-012:34:56.012345"),
        Some((true, 12, 34, 56, 12345))
    );
    assert_eq!(parse_mysql_time_string(b"12:34:56.5"), Some((false, 12, 34, 56, 500000)));
    assert_eq!(parse_mysql_time_string(b"12:34:56.123"), Some((false, 12, 34, 56, 123000)));
    assert_eq!(
        parse_mysql_time_string(b"112:34:56.123456"),
        Some((false, 112, 34, 56, 123456))
    );
    assert_eq!(time_kind_of(b"12:34:56"), Some(TimeKind::HhMmSs));
    assert_eq!(time_kind_of(b"112:34:56"), Some(TimeKind::HhhMmSs));
    assert_eq!(time_kind_of(b"12:34:56.1"), Some(TimeKind::HhMmSsMs));
    assert_eq!(time_kind_of(b"112:34:56.123456"), Some(TimeKind::HhhMmSsMs));
}

#[test]
fn other_shapes_are_no_duration() {
    let others: Vec<&[u8]> = vec![
        b"",
        b"1:23:45",
        b"-1:23:45",
        b"12:34:5",
        b"12:60:00",
        b"12:00:60",
        b"12:34:56.",
        b"12:34:56.1234567",
        b"900:00:00",
        b"1234:00:00",
        b"+12:34:56",
        b"--12:34:56",
        b"12-34-56",
        b"12:34:56 ",
        b"12:34:56.12x",
        b"-12:34:5",
        b"ab:cd:ef",
        b"12:34",
    ];
    for text in others {
        assert_eq!(parse_mysql_time_string(text), None);
    }
    assert_eq!(time_kind_of(b"-12:34:56"), None);
}

#[test]
fn parse_mysql_time_string_doesnt_crash() {
    let mut numbers = Numbers(1);
    for _ in 0..20_000 {
        let len = numbers.below(30) as usize;
        let text: Vec<u8> = (0..len).map(|_| numbers.below(256) as u8).collect();
        parse_mysql_time_string(&text);
    }
    let alphabet = b"0123456789:-. ";
    for _ in 0..20_000 {
        let len = numbers.below(20) as usize;
        let text: Vec<u8> = (0..len)
            .map(|_| alphabet[numbers.below(alphabet.len() as u64) as usize])
            .collect();
        parse_mysql_time_string(&text);
    }
}

#[test]
fn parse_mysql_datetime_string_doesnt_crash() {
    let mut numbers = Numbers(2);
    for _ in 0..20_000 {
        let len = numbers.below(40) as usize;
        let text: Vec<u8> = (0..len).map(|_| numbers.below(256) as u8).collect();
        parse_mysql_datetime_string(&text);
    }
    let alphabet = b"0123456789:-. ";
    for _ in 0..20_000 {
        let len = numbers.below(30) as usize;
        let text: Vec<u8> = (0..len)
            .map(|_| alphabet[numbers.below(alphabet.len() as u64) as usize])
            .collect();
        parse_mysql_datetime_string(&text);
    }
}

#[test]
fn parse_mysql_time_string_parses_valid_time() {
    let mut numbers = Numbers(3);
    for _ in 0..5_000 {
        let mut text = String::new();
        if numbers.below(2) == 1 {
            text.push('-');
        }
        text.push_str(&format!(
            "{}{}{}:{}{}:{}{}",
            numbers.below(9),
            numbers.below(10),
            numbers.below(10),
            numbers.below(6),
            numbers.below(10),
            numbers.below(6),
            numbers.below(10)
        ));
        if numbers.below(2) == 1 {
            text.push('.');
            for _ in 0..(1 + numbers.below(6)) {
                text.push_str(&format!("{}", numbers.below(10)));
            }
        }
        assert!(parse_mysql_time_string(text.as_bytes()).is_some());
    }
}

#[test]
fn parse_mysql_time_string_parses_correctly() {
    let mut numbers = Numbers(4);
    for _ in 0..5_000 {
        let sign = numbers.below(2);
        let h = numbers.below(900);
        let m = numbers.below(59);
        let s = numbers.below(59);
        let have_us = numbers.below(2);
        let us = numbers.below(1_000_000);
        let time_string = format!(
            "{}{:02}:{:02}:{:02}{}",
            if sign == 1 { "-" } else { "" },
            h,
            m,
            s,
            if have_us == 1 { format!(".{:06}", us) } else { "".into() }
        );
        let time = parse_mysql_time_string(time_string.as_bytes()).unwrap();
        assert_eq!(time, (sign == 1, h, m, s, if have_us == 1 { us } else { 0 }));
    }
}

#[test]
fn parse_mysql_datetime_string_parses_valid_time() {
    let mut numbers = Numbers(5);
    for _ in 0..5_000 {
        let mut text = format!(
            "{:04}-{:02}-{:02} {:02}:{:02}:{:02}",
            numbers.below(10_000),
            numbers.below(100),
            numbers.below(100),
            numbers.below(100),
            numbers.below(100),
            numbers.below(100)
        );
        if numbers.below(2) == 1 {
            text.push('.');
            for _ in 0..(1 + numbers.below(6)) {
                text.push_str(&format!("{}", numbers.below(10)));
            }
        }
        assert!(parse_mysql_datetime_string(text.as_bytes()).is_some());
    }
}

#[test]
fn parse_mysql_datetime_string_parses_correctly() {
    let mut numbers = Numbers(6);
    for _ in 0..5_000 {
        let y = numbers.below(10_000);
        let m = 1 + numbers.below(12);
        let d = 1 + numbers.below(31);
        let h = numbers.below(60);
        let i = numbers.below(60);
        let s = numbers.below(60);
        let have_us = numbers.below(2);
        let us = numbers.below(1_000_000);
        let time_string = format!(
            "{:04}-{:02}-{:02} {:02}:{:02}:{:02}{}",
            y,
            m,
            d,
            h,
            i,
            s,
            if have_us == 1 { format!(".{:06}", us) } else { "".into() }
        );
        let datetime = parse_mysql_datetime_string(time_string.as_bytes()).unwrap();
        assert_eq!(datetime, (y, m, d, h, i, s, if have_us == 1 { us } else { 0 }));
    }
}

#[test]
fn the_layouts_are_those_of_the_patterns() {
    let ymd = Regex::new(r"^\d{4}-\d{2}-\d{2}$").unwrap();
    let ymd_hms = Regex::new(r"^\d{4}-\d{2}-\d{2} \d{2}:\d{2}:\d{2}$").unwrap();
    let ymd_hms_ns = Regex::new(r"^\d{4}-\d{2}-\d{2} \d{2}:\d{2}:\d{2}\.\d{1,6}$").unwrap();
    let hh = Regex::new(r"^\d{2}:[0-5]\d:[0-5]\d$").unwrap();
    let hh_ms = Regex::new(r"^\d{2}:[0-5]\d:[0-5]\d\.\d{1,6}$").unwrap();
    let hhh = Regex::new(r"^[0-8]\d\d:[0-5]\d:[0-5]\d$").unwrap();
    let hhh_ms = Regex::new(r"^[0-8]\d\d:[0-5]\d:[0-5]\d\.\d{1,6}$").unwrap();

    // Texts near the layouts: a well-formed text with one byte changed,
    // taken away or added. All bytes are ASCII.
    let seeds: Vec<&[u8]> = vec![
        b"2024-02-29",
        b"2024-02-29 10:20:30",
        b"2024-02-29 10:20:30.5",
        b"2024-02-29 10:20:30.123456",
        b"12:34:56",
        b"-12:34:56",
        b"812:34:56",
        b"-812:34:56",
        b"12:34:56.123",
        b"812:34:56.123456",
        b"-812:34:56.1",
    ];
    let alphabet = b"0123456789:-. a";
    let mut numbers = Numbers(7);
    let mut texts: Vec<Vec<u8>> = Vec::new();
    for seed in &seeds {
        texts.push(seed.to_vec());
        for _ in 0..3_000 {
            let mut text = seed.to_vec();
            let at = numbers.below(text.len() as u64) as usize;
            let byte = alphabet[numbers.below(alphabet.len() as u64) as usize];
            match numbers.below(3) {
                0 => text[at] = byte,
                1 => {
                    text.remove(at);
                }
                _ => text.insert(at, byte),
            }
            texts.push(text);
        }
    }
    for text in texts {
        let len = text.len();
        let datetime = (len == 10 && ymd.is_match(&text))
            || (len == 19 && ymd_hms.is_match(&text))
            || (20 < len && len < 27 && ymd_hms_ns.is_match(&text));
        assert_eq!(parse_mysql_datetime_string(&text).is_some(), datetime);

        let time = if len < 8 {
            false
        } else {
            let rest = if text[0] == b'-' { &text[1..] } else { &text[..] };
            (rest.len() == 8 && hh.is_match(rest))
                || (rest.len() == 9 && hhh.is_match(rest))
                || hh_ms.is_match(rest)
                || hhh_ms.is_match(rest)
        };
        assert_eq!(parse_mysql_time_string(&text).is_some(), time);
    }
}
