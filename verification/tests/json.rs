use vepara::{Json, Number};

#[test]
fn parse_reads_scalars() {
    assert_eq!(Json::parse("null".as_bytes()).unwrap(), Json::Null);
    assert_eq!(Json::parse("true".as_bytes()).unwrap(), Json::Bool(true));
    assert_eq!(Json::parse("\"a\\nb\"".as_bytes()).unwrap(), Json::Str("a\nb".to_string()));
    assert_eq!(Json::parse(" 7 ".as_bytes()).unwrap(), Json::Number(Number::PosInt(7)));
}

#[test]
fn parse_tells_the_three_forms_of_a_number_apart() {
    assert_eq!(Json::parse("0".as_bytes()).unwrap(), Json::Number(Number::PosInt(0)));
    assert_eq!(Json::parse("-3".as_bytes()).unwrap(), Json::Number(Number::NegInt(-3)));
    assert_eq!(
        Json::parse("18446744073709551615".as_bytes()).unwrap(),
        Json::Number(Number::PosInt(u64::MAX))
    );
    assert_eq!(
        Json::parse("-9223372036854775808".as_bytes()).unwrap(),
        Json::Number(Number::NegInt(i64::MIN))
    );
    assert_eq!(Json::parse("1.5".as_bytes()).unwrap(), Json::Number(Number::Float(1.5f64.to_bits())));
    assert_eq!(Json::parse("1.0".as_bytes()).unwrap(), Json::Number(Number::Float(1.0f64.to_bits())));
    assert_eq!(Json::parse("-0.25e1".as_bytes()).unwrap(), Json::Number(Number::Float((-2.5f64).to_bits())));
}

#[test]
fn parse_reads_arrays_and_objects_in_depth() {
    let doc = Json::parse("{\"a\":[1,{\"b\":\"c\"},[]],\"d\":{}}".as_bytes()).unwrap();
    let a = doc.get("a").unwrap().as_array().unwrap();
    assert_eq!(a.len(), 3);
    assert_eq!(a[0], Json::Number(Number::PosInt(1)));
    assert_eq!(a[1].get("b").unwrap().as_string().unwrap(), "c");
    assert_eq!(a[2], Json::Array(vec![]));
    assert_eq!(doc.get("d").unwrap(), &Json::Object(vec![]));
}

#[test]
fn parse_rejects_what_is_not_json() {
    assert!(Json::parse("".as_bytes()).is_err());
    assert!(Json::parse("{".as_bytes()).is_err());
    assert!(Json::parse("{\"a\":1,}".as_bytes()).is_err());
    assert!(Json::parse("<html>Internal Server Error</html>".as_bytes()).is_err());
    assert!(Json::parse("1 2".as_bytes()).is_err());
    assert!(Json::parse("NaN".as_bytes()).is_err());
}

#[test]
fn parse_keeps_the_last_of_two_members_with_one_key() {
    let doc = Json::parse("{\"k\":1,\"k\":2}".as_bytes()).unwrap();
    assert_eq!(doc.get("k").unwrap().as_i64(), Some(2));
}

#[test]
fn get_finds_the_first_member_with_the_key() {
    let doc = Json::Object(vec![
        ("a".to_string(), Json::Number(Number::PosInt(1))),
        ("b".to_string(), Json::Bool(false)),
        ("a".to_string(), Json::Number(Number::PosInt(2))),
    ]);
    assert_eq!(doc.get("a"), Some(&Json::Number(Number::PosInt(1))));
    assert_eq!(doc.get("b"), Some(&Json::Bool(false)));
    assert_eq!(doc.get("c"), None);
    assert_eq!(doc.get(""), None);
}

#[test]
fn get_finds_nothing_in_what_is_no_object() {
    assert_eq!(Json::Null.get("a"), None);
    assert_eq!(Json::Array(vec![Json::Null]).get("0"), None);
    assert_eq!(Json::Str("a".to_string()).get("a"), None);
}

#[test]
fn accessors_answer_for_their_own_kind_only() {
    let s = Json::Str("x".to_string());
    let n = Json::Number(Number::PosInt(5));
    let a = Json::Array(vec![Json::Null]);
    assert_eq!(s.as_string().map(|t| t.as_str()), Some("x"));
    assert_eq!(s.as_i64(), None);
    assert_eq!(s.as_number(), None);
    assert!(s.as_array().is_none());
    assert_eq!(n.as_i64(), Some(5));
    assert_eq!(n.as_number(), Some(Number::PosInt(5)));
    assert!(n.as_string().is_none());
    assert_eq!(a.as_array().map(|v| v.len()), Some(1));
    assert_eq!(a.as_i64(), None);
    assert_eq!(Json::Null.as_i64(), None);
    assert_eq!(Json::Bool(true).as_number(), None);
}

#[test]
fn as_i64_takes_integers_in_range_only() {
    assert_eq!(Number::PosInt(0).as_i64(), Some(0));
    assert_eq!(Number::PosInt(9223372036854775807).as_i64(), Some(i64::MAX));
    assert_eq!(Number::PosInt(9223372036854775808).as_i64(), None);
    assert_eq!(Number::PosInt(u64::MAX).as_i64(), None);
    assert_eq!(Number::NegInt(-1).as_i64(), Some(-1));
    assert_eq!(Number::NegInt(i64::MIN).as_i64(), Some(i64::MIN));
    assert_eq!(Number::Float(1.0f64.to_bits()).as_i64(), None);
}

#[test]
fn from_i32_picks_the_form_by_sign() {
    assert_eq!(Number::from_i32(0), Number::PosInt(0));
    assert_eq!(Number::from_i32(2023), Number::PosInt(2023));
    assert_eq!(Number::from_i32(i32::MAX), Number::PosInt(2147483647));
    assert_eq!(Number::from_i32(-1), Number::NegInt(-1));
    assert_eq!(Number::from_i32(i32::MIN), Number::NegInt(-2147483648));
}

#[test]
fn parse_rejects_bytes_that_are_no_text() {
    assert!(Json::parse(&[0xff, 0xfe]).is_err());
    assert!(Json::parse(b"\"\xc3\x28\"").is_err());
    assert_eq!(Json::parse("\"ç\"".as_bytes()).unwrap(), Json::Str("ç".to_string()));
}

#[test]
fn parse_reads_an_exponent_as_a_floating_point_value() {
    assert_eq!(Json::parse(b"1e2").unwrap(), Json::Number(Number::Float(100.0f64.to_bits())));
    assert_eq!(Json::parse(b"-0").unwrap(), Json::Number(Number::Float((-0.0f64).to_bits())));
    assert_eq!(
        Json::parse(b"18446744073709551616").unwrap(),
        Json::Number(Number::Float(18446744073709551616.0f64.to_bits()))
    );
}

#[test]
fn from_readings_prefers_unsigned_then_signed_then_bits() {
    assert_eq!(Number::from_readings(Some(5), Some(5), Some(5.0f64.to_bits())), Number::PosInt(5));
    assert_eq!(Number::from_readings(Some(u64::MAX), None, None), Number::PosInt(u64::MAX));
    assert_eq!(Number::from_readings(None, Some(-5), Some((-5.0f64).to_bits())), Number::NegInt(-5));
    assert_eq!(
        Number::from_readings(None, None, Some(2.5f64.to_bits())),
        Number::Float(2.5f64.to_bits())
    );
    match Number::from_readings(None, None, None) {
        Number::Float(bits) => assert!(f64::from_bits(bits).is_nan()),
        other => panic!("unexpected: {:?}", other),
    }
}

#[test]
fn is_finite_follows_the_exponent() {
    assert!(Number::PosInt(u64::MAX).is_finite());
    assert!(Number::NegInt(i64::MIN).is_finite());
    assert!(Number::Float(0.0f64.to_bits()).is_finite());
    assert!(Number::Float(f64::MAX.to_bits()).is_finite());
    assert!(Number::Float(f64::MIN.to_bits()).is_finite());
    assert!(Number::Float(0x7fef_ffff_ffff_ffff).is_finite());
    assert!(!Number::Float(0x7ff0_0000_0000_0000).is_finite());
    assert!(!Number::Float(0xfff0_0000_0000_0000).is_finite());
    assert!(!Number::Float(0x7ff0_0000_0000_0001).is_finite());
    assert!(!Number::Float(f64::NAN.to_bits()).is_finite());
    assert!(!Number::Float(u64::MAX).is_finite());
    for value in [1.5f64, -2.0, 1e308, 5e-324, f64::INFINITY, f64::NEG_INFINITY, f64::NAN] {
        assert_eq!(Number::Float(value.to_bits()).is_finite(), value.is_finite());
    }
}
