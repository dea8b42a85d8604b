use binance_pay::error::DecodingError;
use binance_pay::json_string;
use binance_pay::opt_uuid_simple;
use binance_pay::uuid_simple;

const SAMPLE: u128 = 0x550e8400_e29b_41d4_a716_446655440000;

#[test]
fn uuid_written_compact_and_lowercase() {
    assert_eq!(uuid_simple::serialize(SAMPLE), "550e8400e29b41d4a716446655440000");
    assert_eq!(uuid_simple::serialize(0), "00000000000000000000000000000000");
    assert_eq!(uuid_simple::serialize(u128::MAX), "ffffffffffffffffffffffffffffffff");
}

#[test]
fn uuid_round_trip() {
    for u in [0u128, 1, SAMPLE, u128::MAX, 0xABCDEF] {
        let text = uuid_simple::serialize(u);
        assert_eq!(text.len(), 32);
        assert_eq!(uuid_simple::deserialize(&text), Ok(u));
    }
}

#[test]
fn uuid_hyphenated_reads_as_compact() {
    let hyphenated = uuid_simple::deserialize("550e8400-e29b-41d4-a716-446655440000");
    let compact = uuid_simple::deserialize("550e8400e29b41d4a716446655440000");
    assert_eq!(hyphenated, compact);
    assert_eq!(compact, Ok(SAMPLE));
}

#[test]
fn uuid_other_accepted_forms() {
    assert_eq!(uuid_simple::deserialize("550E8400E29B41D4A716446655440000"), Ok(SAMPLE));
    assert_eq!(
        uuid_simple::deserialize("urn:uuid:550e8400-e29b-41d4-a716-446655440000"),
        Ok(SAMPLE)
    );
}

#[test]
fn uuid_malformed_text_refused() {
    for bad in [
        "",
        "550e8400e29b41d4a71644665544000",
        "550e8400e29b41d4a7164466554400000",
        "550e8400e29b41d4a71644665544000g",
        "550e840-0e29b-41d4-a716-446655440000",
        "550e8400-e29b-41d4-a716-44665544000-",
        "{550e8400-e29b-41d4-a716-446655440000}",
    ] {
        assert_eq!(uuid_simple::deserialize(bad), Err(DecodingError::InvalidUuid), "{}", bad);
    }
}

#[test]
fn optional_uuid_null() {
    assert_eq!(opt_uuid_simple::serialize(None), None);
    assert_eq!(opt_uuid_simple::deserialize(None), Ok(None));
}

#[test]
fn optional_uuid_present() {
    let text = opt_uuid_simple::serialize(Some(SAMPLE));
    assert_eq!(text.as_deref(), Some("550e8400e29b41d4a716446655440000"));
    assert_eq!(opt_uuid_simple::deserialize(text.as_deref()), Ok(Some(SAMPLE)));
    assert_eq!(
        opt_uuid_simple::deserialize(Some("550e8400-e29b-41d4-a716-446655440000")),
        Ok(Some(SAMPLE))
    );
    assert_eq!(opt_uuid_simple::deserialize(Some("nope")), Err(DecodingError::InvalidUuid));
}

#[test]
fn nested_json_written_as_string() {
    assert_eq!(json_string::serialize(r#"{"a":1}"#), r#""{\"a\":1}""#);
    assert_eq!(json_string::serialize("a\\b\n\u{1}"), r#""a\\b\n\u0001""#);
    assert_eq!(json_string::serialize(""), r#""""#);
}

#[test]
fn nested_json_round_trip() {
    for doc in [r#"{"orderId":"7","items":[1,2,3]}"#, "[]", "null", "\"inner\"", "12.5"] {
        let wire = json_string::serialize(doc);
        assert_eq!(json_string::deserialize(&wire), Ok(doc.to_string()));
    }
}

#[test]
fn nested_json_object_outer_refused() {
    assert_eq!(json_string::deserialize(r#"{"a":1}"#), Err(DecodingError::NotAString));
    assert_eq!(json_string::deserialize("[1]"), Err(DecodingError::NotAString));
    assert_eq!(json_string::deserialize(""), Err(DecodingError::NotAString));
}

#[test]
fn nested_json_invalid_inner_refused() {
    assert_eq!(json_string::deserialize(r#""not json""#), Err(DecodingError::InvalidJson));
    assert_eq!(json_string::deserialize(r#""{\"a\":""#), Err(DecodingError::InvalidJson));
}

#[test]
fn nested_json_whitespace_around_outer() {
    assert_eq!(json_string::deserialize("  \"[1,2]\"\n"), Ok("[1,2]".to_string()));
}
