use dailyco::json::Json;
use dailyco::wire::{FromJson, Numeral, ToJson};

#[test]
fn parse_reads_every_kind_of_value() {
    let json = Json::parse(r#"{"a":null,"b":true,"c":-3,"d":18446744073709551615,"e":"x","f":[1,"y",{}],"g":0.5}"#)
        .unwrap();
    assert_eq!(json.get("a"), Some(&Json::Null));
    assert_eq!(json.get("b"), Some(&Json::Bool(true)));
    assert_eq!(json.get("c"), Some(&Json::Int(-3)));
    assert_eq!(json.get("d"), Some(&Json::UInt(u64::MAX)));
    assert_eq!(json.get("e"), Some(&Json::Str("x".to_string())));
    assert_eq!(
        json.get("f"),
        Some(&Json::Array(vec![
            Json::UInt(1),
            Json::Str("y".to_string()),
            Json::Object(vec![])
        ]))
    );
    let half = serde_json::Number::from_f64(0.5).unwrap();
    assert_eq!(json.get("g"), Some(&Json::Real(half)));
    assert_eq!(json.get("h"), None);
    assert_eq!(Json::Null.get("a"), None);
}

#[test]
fn parse_rejects_what_is_not_json() {
    for text in ["", "{", "{\"a\":}", "nul", "[1,]", "{\"a\":1}x", "'a'"] {
        assert!(Json::parse(text).is_none(), "{}", text);
    }
}

#[test]
fn text_is_compact_with_sorted_names() {
    let json = Json::Object(vec![
        ("b".to_string(), Json::Int(-1)),
        ("a".to_string(), Json::Array(vec![Json::Null, Json::Bool(false), Json::UInt(7)])),
        ("c".to_string(), Json::Str("q\"uote\n".to_string())),
    ]);
    assert_eq!(json.to_text(), r#"{"a":[null,false,7],"b":-1,"c":"q\"uote\n"}"#);
    assert_eq!(Json::parse(&json.to_text()).unwrap().to_text(), json.to_text());
}

#[test]
fn pretty_text_is_indented_by_two_spaces() {
    let json = Json::Object(vec![
        ("a".to_string(), Json::Int(1)),
        ("b".to_string(), Json::Array(vec![Json::Bool(true)])),
    ]);
    assert_eq!(json.to_pretty_text(), "{\n  \"a\": 1,\n  \"b\": [\n    true\n  ]\n}");
}

#[test]
fn a_later_member_replaces_an_earlier_one() {
    let json = Json::Object(vec![
        ("a".to_string(), Json::Int(1)),
        ("a".to_string(), Json::Int(2)),
    ]);
    assert_eq!(json.get("a"), Some(&Json::Int(2)));
    assert_eq!(json.to_text(), r#"{"a":2}"#);
    let parsed = Json::parse(r#"{"a":1,"a":2}"#).unwrap();
    assert_eq!(parsed.get("a"), Some(&Json::UInt(2)));
}

#[test]
fn integers_are_read_within_their_ranges() {
    assert_eq!(Json::Int(5).as_u64(), Some(5));
    assert_eq!(Json::Int(-5).as_u64(), None);
    assert_eq!(Json::UInt(5).as_i64(), Some(5));
    assert_eq!(Json::UInt(1 << 63).as_i64(), None);
    assert_eq!(Json::UInt((1 << 63) - 1).as_i64(), Some(i64::MAX));
    assert_eq!(Json::Real(serde_json::Number::from(7)).as_i64(), Some(7));
    assert_eq!(Json::Real(serde_json::Number::from(7)).as_u64(), Some(7));
    assert_eq!(Json::Real(serde_json::Number::from(-7)).as_u64(), None);
    assert_eq!(Json::Real(serde_json::Number::from_f64(7.5).unwrap()).as_i64(), None);
    assert_eq!(Json::Str("7".to_string()).as_i64(), None);
    assert_eq!(u32::from_json(&Json::UInt(u32::MAX as u64)), Some(u32::MAX));
    assert_eq!(u32::from_json(&Json::UInt(u32::MAX as u64 + 1)), None);
    assert_eq!(usize::from_json(&Json::Int(12)), Some(12));
    assert_eq!(i64::from_json(&Json::Int(i64::MIN)), Some(i64::MIN));
    assert_eq!(bool::from_json(&Json::Int(1)), None);
    assert_eq!(String::from_json(&Json::Str("s".to_string())), Some("s".to_string()));
    assert_eq!(String::from_json(&Json::Null), None);
}

#[test]
fn scalars_are_written_as_their_kind() {
    assert_eq!(true.to_json(), Json::Bool(true));
    assert_eq!((-4i64).to_json(), Json::Int(-4));
    assert_eq!(4u64.to_json(), Json::UInt(4));
    assert_eq!(4u32.to_json(), Json::UInt(4));
    assert_eq!(4usize.to_json(), Json::UInt(4));
    assert_eq!("s".to_string().to_json(), Json::Str("s".to_string()));
    assert_eq!((-4i64).to_json().to_text(), "-4");
    assert_eq!(u64::MAX.to_json().to_text(), "18446744073709551615");
}

#[test]
fn numerals_carry_numbers_of_any_kind() {
    let half = Numeral::parse("0.5").unwrap();
    assert_eq!(half.number.as_f64(), Some(0.5));
    assert_eq!(half.to_json().to_text(), "0.5");
    assert_eq!(Numeral::parse("12").unwrap().number.as_u64(), Some(12));
    assert_eq!(Numeral::parse("-12").unwrap().number.as_i64(), Some(-12));
    assert!(Numeral::parse("\"0.5\"").is_none());
    assert!(Numeral::parse("abc").is_none());
    assert_eq!(Numeral::from_json(&Json::Int(-2)).unwrap().number.as_i64(), Some(-2));
    assert_eq!(Numeral::from_json(&Json::UInt(2)).unwrap().number.as_u64(), Some(2));
    assert!(Numeral::from_json(&Json::Null).is_none());
}

#[test]
fn arrays_are_read_item_by_item() {
    let json = Json::parse("[1,2,3]").unwrap();
    assert_eq!(dailyco::wire::array_of::<i64>(&json), Some(vec![1, 2, 3]));
    assert_eq!(dailyco::wire::array_of::<i64>(&Json::parse("[1,\"2\"]").unwrap()), None);
    assert_eq!(dailyco::wire::array_of::<i64>(&Json::parse("{}").unwrap()), None);
    assert_eq!(dailyco::wire::array_of::<i64>(&Json::parse("[]").unwrap()), Some(vec![]));
}

#[test]
fn strings_compare_by_their_characters() {
    assert!(dailyco::text::str_eq("", ""));
    assert!(dailyco::text::str_eq("héllo", "héllo"));
    assert!(!dailyco::text::str_eq("hello", "hellp"));
    assert!(!dailyco::text::str_eq("hello", "hell"));
}
