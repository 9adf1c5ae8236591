use columnar::value::{IntoValue, Value};

#[test]
fn integer_values_read_back_as_int64() {
    assert_eq!(42i64.into_value().to_int64(), 42);
    assert_eq!((-7i32).into_value().to_int64(), -7);
    assert_eq!(200u8.into_value().to_int64(), 200);
    assert_eq!(true.into_value().to_int64(), 1);
    assert_eq!(false.into_value().to_int64(), 0);
    assert_eq!(u32::MAX.into_value().to_int64(), 4294967295);
    assert_eq!(9000000000u64.into_value().to_int64(), 9000000000);
    assert_eq!(i64::MIN.into_value().to_int64(), i64::MIN);
}

#[test]
fn optional_values_map_none_to_null() {
    let v = Value::from_option(Some(5i64));
    assert_eq!(v.to_int64(), 5);
    // The null constructor and the None conversion both build the null
    // scalar; neither is integer-compatible, so there is nothing further to
    // read from them here.
    let _null_from_none = Value::from_option::<i64>(None);
    let _null = Value::null();
}

#[test]
fn calendar_constructors_build_one_value_each() {
    let _d = Value::date_from_day_count(19000);
    let _t = Value::time_from_ms(86399999999);
    let _s = Value::timestamp_s(1700000000);
    let _ms = Value::timestamp_ms(1700000000000);
    let _us = Value::timestamp_us(1700000000000000);
    let _ns = Value::timestamp_ns(1700000000000000000);
}

#[test]
fn blob_values_own_their_bytes() {
    let bytes = [1u8, 2, 3, 255];
    let _v = Value::from_bytes(&bytes);
}

#[test]
fn display_renders_null_booleans_and_integers() {
    assert_eq!(Value::null().display_string(), "NULL");
    assert_eq!(true.into_value().display_string(), "true");
    assert_eq!(false.into_value().display_string(), "false");
    assert_eq!(0u8.into_value().display_string(), "0");
    assert_eq!(42i64.into_value().display_string(), "42");
    assert_eq!((-7i16).into_value().display_string(), "-7");
    assert_eq!(100u32.into_value().display_string(), "100");
    assert_eq!(
        i64::MIN.into_value().display_string(),
        "-9223372036854775808"
    );
    assert_eq!(
        u64::MAX.into_value().display_string(),
        "18446744073709551615"
    );
}

#[test]
fn release_is_idempotent() {
    let mut v = Value::null();
    v.release();
    v.release();
}
