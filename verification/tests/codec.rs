use bitflyer::codec::{optionally, require, FromJson, ToJson};
use bitflyer::decimal::Decimal;
use bitflyer::deserializer::{timestamp, timestamp_option, Timestamp};
use bitflyer::error::ApiError;
use bitflyer::json::{Json, Member};
use bitflyer::text::{hex_lower, i64_to_string, parse_u64, str_eq, u64_to_string};

fn object(members: Vec<(&str, Json)>) -> Json {
    Json::Object(
        members.into_iter().map(|(name, value)| Member { name: name.to_string(), value }).collect(),
    )
}

#[test]
fn strings_compare_by_their_characters() {
    assert!(str_eq("", ""));
    assert!(str_eq("BTC_JPY", "BTC_JPY"));
    assert!(!str_eq("BTC_JPY", "BTC_JPX"));
    assert!(!str_eq("BTC", "BTC_JPY"));
    assert!(str_eq("円", "円"));
    assert!(!str_eq("円", "丹"));
}

#[test]
fn integers_are_written_in_base_ten() {
    assert_eq!(u64_to_string(0), "0");
    assert_eq!(u64_to_string(7), "7");
    assert_eq!(u64_to_string(10), "10");
    assert_eq!(u64_to_string(1436323859), "1436323859");
    assert_eq!(u64_to_string(u64::MAX), "18446744073709551615");
    assert_eq!(i64_to_string(0), "0");
    assert_eq!(i64_to_string(-1), "-1");
    assert_eq!(i64_to_string(1436323859), "1436323859");
    assert_eq!(i64_to_string(i64::MAX), "9223372036854775807");
    assert_eq!(i64_to_string(i64::MIN), "-9223372036854775808");
}

#[test]
fn integers_are_read_from_digits_only() {
    assert_eq!(parse_u64("0"), Some(0));
    assert_eq!(parse_u64("42"), Some(42));
    assert_eq!(parse_u64("007"), Some(7));
    assert_eq!(parse_u64("18446744073709551615"), Some(u64::MAX));
    assert_eq!(parse_u64("18446744073709551616"), None);
    assert_eq!(parse_u64("99999999999999999999999"), None);
    assert_eq!(parse_u64(""), None);
    assert_eq!(parse_u64("-1"), None);
    assert_eq!(parse_u64("+1"), None);
    assert_eq!(parse_u64("1.0"), None);
    assert_eq!(parse_u64("1e3"), None);
    assert_eq!(parse_u64("12a"), None);
    assert_eq!(parse_u64(" 1"), None);
    assert_eq!(parse_u64("１"), None);
}

#[test]
fn written_integers_read_back() {
    for n in [0u64, 1, 9, 10, 99, 100, 12345, u64::MAX - 1, u64::MAX] {
        assert_eq!(parse_u64(&u64_to_string(n)), Some(n));
    }
}

#[test]
fn bytes_are_written_in_base_sixteen() {
    assert_eq!(hex_lower(&[]), "");
    assert_eq!(hex_lower(&[0]), "00");
    assert_eq!(hex_lower(&[0x0f, 0xf0, 0xab, 0x09]), "0ff0ab09");
    assert_eq!(hex_lower(&[255, 16, 1]), "ff1001");
}

#[test]
fn decimals_keep_every_digit() {
    assert_eq!(Decimal::parse("0.01"), Some(Decimal { mantissa: 1, scale: 2 }));
    assert_eq!(Decimal::parse("100"), Some(Decimal { mantissa: 100, scale: 0 }));
    assert_eq!(Decimal::parse("1.50"), Some(Decimal { mantissa: 150, scale: 2 }));
    assert_eq!(Decimal::parse("-30000.5"), Some(Decimal { mantissa: -300005, scale: 1 }));
    assert_eq!(
        Decimal::parse("12345678901234567890.12345678"),
        Some(Decimal { mantissa: 1234567890123456789012345678, scale: 8 })
    );
    assert_eq!(Decimal::parse("abc"), None);
    assert_eq!(Decimal::parse(""), None);
}

#[test]
fn decimals_are_written_as_they_were_read() {
    assert_eq!(Decimal { mantissa: 150, scale: 2 }.to_string(), Some("1.50".to_string()));
    assert_eq!(Decimal { mantissa: 1, scale: 2 }.to_string(), Some("0.01".to_string()));
    assert_eq!(Decimal { mantissa: -300005, scale: 1 }.to_string(), Some("-30000.5".to_string()));
    assert_eq!(Decimal { mantissa: 100, scale: 0 }.to_string(), Some("100".to_string()));
    for text in ["0", "1", "0.1", "16819.26", "-0.00000001", "79228162514264337593543950335"] {
        let d = Decimal::parse(text).unwrap();
        assert_eq!(d.to_string(), Some(text.to_string()));
    }
}

#[test]
fn decimals_out_of_range_are_refused() {
    assert_eq!(Decimal::new(1, 28), Some(Decimal { mantissa: 1, scale: 28 }));
    assert_eq!(Decimal::new(1, 29), None);
    let max: i128 = 79_228_162_514_264_337_593_543_950_335;
    assert_eq!(Decimal::new(max, 0), Some(Decimal { mantissa: max, scale: 0 }));
    assert_eq!(Decimal::new(-max, 0), Some(Decimal { mantissa: -max, scale: 0 }));
    assert_eq!(Decimal::new(max + 1, 0), None);
    assert_eq!(Decimal::new(-max - 1, 0), None);
    assert_eq!(Decimal::from_parts(None), None);
    assert_eq!(Decimal::from_parts(Some((5, 1))), Some(Decimal { mantissa: 5, scale: 1 }));
    assert_eq!(Decimal::from_parts(Some((5, 40))), None);
    assert_eq!(Decimal { mantissa: 1, scale: 29 }.to_string(), None);
    assert_eq!(Decimal { mantissa: max + 1, scale: 0 }.to_json(), None);
}

#[test]
fn decimals_are_read_from_numbers_and_from_strings() {
    let want = Some(Decimal { mantissa: 3005, scale: 2 });
    assert_eq!(Decimal::from_json(&Json::Number("30.05".to_string())), want);
    assert_eq!(Decimal::from_json(&Json::String("30.05".to_string())), want);
    assert_eq!(Decimal::from_json(&Json::Null), None);
    assert_eq!(Decimal::from_json(&Json::Bool(true)), None);
    assert_eq!(
        Decimal { mantissa: 3005, scale: 2 }.to_json(),
        Some(Json::Number("30.05".to_string()))
    );
}

#[test]
fn timestamp_without_offset_is_read_as_utc() {
    let t = timestamp::deserialize("2015-07-08T02:50:59.97").unwrap();
    assert_eq!(t, Timestamp { seconds: 1436323859, nanos: 970_000_000 });
}

#[test]
fn timestamp_with_offset_is_read_with_it() {
    let t = timestamp::deserialize("2015-07-08T02:50:59.97+09:00").unwrap();
    assert_eq!(t, Timestamp { seconds: 1436323859 - 9 * 3600, nanos: 970_000_000 });
    let z = timestamp::deserialize("2015-07-08T02:50:59Z").unwrap();
    assert_eq!(z, Timestamp { seconds: 1436323859, nanos: 0 });
}

#[test]
fn timestamp_that_is_no_date_is_a_decode_error() {
    assert_eq!(
        timestamp::deserialize("not-a-date"),
        Err(ApiError::Decode { raw: "not-a-date".to_string() })
    );
    assert_eq!(timestamp::deserialize(""), Err(ApiError::Decode { raw: String::new() }));
    assert_eq!(
        Timestamp::parse("2015-13-08T02:50:59"),
        Err(ApiError::Decode { raw: "2015-13-08T02:50:59".to_string() })
    );
}

#[test]
fn timestamp_fallback_keeps_the_text_that_was_read() {
    assert_eq!(
        Timestamp::from_fallback(Some((5, 6)), "x"),
        Ok(Timestamp { seconds: 5, nanos: 6 })
    );
    assert_eq!(
        Timestamp::from_fallback(None, "2015"),
        Err(ApiError::Decode { raw: "2015".to_string() })
    );
}

#[test]
fn absent_timestamp_is_not_read() {
    assert_eq!(timestamp_option::deserialize(None), Ok(None));
    assert_eq!(
        timestamp_option::deserialize(Some("2015-07-08T02:50:59.97")),
        Ok(Some(Timestamp { seconds: 1436323859, nanos: 970_000_000 }))
    );
    assert_eq!(
        timestamp_option::deserialize(Some("soon")),
        Err(ApiError::Decode { raw: "soon".to_string() })
    );
}

#[test]
fn timestamp_is_a_string_on_the_wire() {
    assert_eq!(
        Timestamp::from_json(&Json::String("2015-07-08T02:50:59.97".to_string())),
        Some(Timestamp { seconds: 1436323859, nanos: 970_000_000 })
    );
    assert_eq!(Timestamp::from_json(&Json::Number("1436323859".to_string())), None);
    assert_eq!(Timestamp::from_json(&Json::String("yesterday".to_string())), None);
    assert_eq!(
        Option::<Timestamp>::from_json(&Json::Null),
        Some(None)
    );
}

#[test]
fn members_are_found_by_name() {
    let j = object(vec![
        ("a", Json::Number("1".to_string())),
        ("b", Json::Null),
        ("a", Json::Number("2".to_string())),
    ]);
    assert_eq!(j.get("a"), Some(&Json::Number("1".to_string())));
    assert_eq!(j.get("b"), Some(&Json::Null));
    assert_eq!(j.get("c"), None);
    assert_eq!(Json::Null.get("a"), None);
    assert_eq!(Json::Array(vec![]).get("a"), None);
    assert_eq!(require::<u64>(&j, "a"), Some(1));
    assert_eq!(require::<u64>(&j, "b"), None);
    assert_eq!(require::<u64>(&j, "c"), None);
    assert_eq!(optionally::<u64>(&j, "a"), Some(Some(1)));
    assert_eq!(optionally::<u64>(&j, "b"), Some(None));
    assert_eq!(optionally::<u64>(&j, "c"), Some(None));
    let bad = object(vec![("a", Json::Bool(true))]);
    assert_eq!(optionally::<u64>(&bad, "a"), None);
}

#[test]
fn documents_give_what_they_are() {
    assert_eq!(Json::String("x".to_string()).as_text(), Some("x"));
    assert_eq!(Json::Number("1".to_string()).as_text(), None);
    assert_eq!(Json::Number("1".to_string()).as_number(), Some("1"));
    assert_eq!(Json::String("1".to_string()).as_number(), None);
    assert!(Json::Null.is_null());
    assert!(!Json::Bool(false).is_null());
    assert_eq!(Json::Array(vec![Json::Null]).as_items(), Some(&vec![Json::Null]));
    assert_eq!(Json::Null.as_items(), None);
}

#[test]
fn lists_are_read_item_by_item() {
    let list = Json::Array(vec![Json::Number("1".to_string()), Json::Number("2".to_string())]);
    assert_eq!(Vec::<u64>::from_json(&list), Some(vec![1, 2]));
    assert_eq!(Vec::<u64>::from_json(&Json::Array(vec![])), Some(vec![]));
    let mixed = Json::Array(vec![Json::Number("1".to_string()), Json::Null]);
    assert_eq!(Vec::<u64>::from_json(&mixed), None);
    assert_eq!(Vec::<u64>::from_json(&Json::Null), None);
    assert_eq!(vec![1u64, 2].to_json(), Some(list));
    assert_eq!(
        Vec::<String>::from_json(&Json::Array(vec![Json::String("a".to_string())])),
        Some(vec!["a".to_string()])
    );
}

fn nested(depth: usize) -> Json {
    let mut j = Json::Null;
    for k in 0..depth {
        j = if k % 2 == 0 {
            Json::Array(vec![j])
        } else {
            Json::Object(vec![Member { name: "a".to_string(), value: j }])
        };
    }
    j
}

#[test]
fn nesting_is_counted_by_arrays_and_objects() {
    assert!(Json::Null.is_nested_within(0));
    assert!(Json::String("x".to_string()).is_nested_within(0));
    assert!(!Json::Array(vec![]).is_nested_within(0));
    assert!(Json::Array(vec![]).is_nested_within(1));
    assert!(!Json::Object(vec![]).is_nested_within(0));
    assert!(Json::Object(vec![]).is_nested_within(1));
    assert!(nested(3).is_nested_within(3));
    assert!(!nested(3).is_nested_within(2));
    assert!(nested(128).is_nested_within(128));
    assert!(!nested(129).is_nested_within(128));
    let wide = Json::Array(vec![Json::Null, nested(2), Json::Null]);
    assert!(wide.is_nested_within(3));
    assert!(!wide.is_nested_within(2));
}
