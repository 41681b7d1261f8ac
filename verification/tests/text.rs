use mysql_common::value::convert::{
    from_value, from_value_opt, BytesIr, ConvIr, FromValue, FromValueError, OptionIr, StringIr,
};
use mysql_common::value::Value;

#[test]
fn text_in_utf8_converts_to_a_string() {
    assert_eq!(from_value_opt::<String>(Value::Bytes(b"ada".to_vec())).unwrap(), "ada");
    assert_eq!(
        from_value_opt::<String>(Value::Bytes("grüße €".as_bytes().to_vec())).unwrap(),
        "grüße €"
    );
    assert_eq!(from_value::<String>(Value::Bytes(Vec::new())), "");
}

#[test]
fn bytes_that_are_not_utf8_come_back_in_the_error() {
    let bytes = vec![0x66, 0x6f, 0xff, 0x6f];
    match from_value_opt::<String>(Value::Bytes(bytes.clone())) {
        Err(FromValueError(back)) => assert_eq!(back, Value::Bytes(bytes)),
        Ok(_) => panic!("made a string of bytes that are not UTF-8"),
    }
}

#[test]
fn only_bytes_convert_to_a_string() {
    for value in vec![Value::NULL, Value::Int(1), Value::UInt(1), Value::Float(0)] {
        match from_value_opt::<String>(value.clone()) {
            Err(FromValueError(back)) => assert_eq!(back, value),
            Ok(_) => panic!("made a string of a value that holds no bytes"),
        }
    }
}

#[test]
fn a_string_rolls_back_to_its_bytes() {
    let ir = <StringIr as ConvIr<String>>::new(Value::Bytes("añb".as_bytes().to_vec())).unwrap();
    assert_eq!(ir.rollback(), Value::Bytes("añb".as_bytes().to_vec()));
    let ir = <String as FromValue>::get_intermediate(Value::Bytes(b"x".to_vec())).unwrap();
    assert_eq!(ir.commit(), "x");
}

#[test]
fn bytes_convert_to_bytes_only() {
    assert_eq!(
        from_value_opt::<Vec<u8>>(Value::Bytes(vec![0, 159, 146, 150])).unwrap(),
        vec![0, 159, 146, 150]
    );
    assert!(from_value_opt::<Vec<u8>>(Value::Int(1)).is_err());
    assert!(from_value_opt::<Vec<u8>>(Value::NULL).is_err());
    let ir = <BytesIr as ConvIr<Vec<u8>>>::new(Value::Bytes(vec![1, 2])).unwrap();
    assert_eq!(ir.rollback(), Value::Bytes(vec![1, 2]));
}

#[test]
fn a_value_converts_to_itself() {
    for value in vec![
        Value::NULL,
        Value::Int(-1),
        Value::UInt(1),
        Value::Float(2.5f64.to_bits()),
        Value::Bytes(b"x".to_vec()),
        Value::Date(2020, 13, 40, 25, 61, 61, 0),
        Value::Time(true, 1, 2, 3, 4, 5),
    ] {
        assert_eq!(from_value_opt::<Value>(value.clone()).unwrap(), value);
        assert_eq!(from_value::<Value>(value.clone()), value);
        let ir = <Value as ConvIr<Value>>::new(value.clone()).unwrap();
        assert_eq!(ir.rollback(), value);
    }
}

#[test]
fn null_converts_to_none() {
    assert_eq!(from_value_opt::<Option<i32>>(Value::NULL).unwrap(), None);
    assert_eq!(from_value_opt::<Option<String>>(Value::NULL).unwrap(), None);
    assert_eq!(from_value_opt::<Option<bool>>(Value::NULL).unwrap(), None);
    assert_eq!(from_value_opt::<Option<Vec<u8>>>(Value::NULL).unwrap(), None);
    assert_eq!(from_value_opt::<Option<Value>>(Value::NULL).unwrap(), None);
    assert_eq!(from_value_opt::<Option<Option<u8>>>(Value::NULL).unwrap(), None);
    assert_eq!(from_value::<Option<u64>>(Value::NULL), None);
}

#[test]
fn another_value_converts_as_the_inner_type_does() {
    assert_eq!(from_value_opt::<Option<i32>>(Value::Int(7)).unwrap(), Some(7));
    assert_eq!(
        from_value_opt::<Option<String>>(Value::Bytes(b"ada".to_vec())).unwrap(),
        Some("ada".to_string())
    );
    match from_value_opt::<Option<u8>>(Value::Int(256)) {
        Err(FromValueError(back)) => assert_eq!(back, Value::Int(256)),
        Ok(_) => panic!("256 is no u8"),
    }
}

#[test]
fn an_optional_intermediate_rolls_back_to_what_it_came_from() {
    let absent = <OptionIr<StringIr> as ConvIr<Option<String>>>::new(Value::NULL).unwrap();
    assert_eq!(absent.rollback(), Value::NULL);
    let absent = <Option<i64> as FromValue>::get_intermediate(Value::NULL).unwrap();
    assert_eq!(absent.commit(), None);
    let present = <Option<i64> as FromValue>::get_intermediate(Value::Bytes(b"12".to_vec()))
        .unwrap();
    assert_eq!(present.rollback(), Value::Bytes(b"12".to_vec()));
    let present = <Option<i64> as FromValue>::get_intermediate(Value::Bytes(b"12".to_vec()))
        .unwrap();
    assert_eq!(present.commit(), Some(12));
}
