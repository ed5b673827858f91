use call_boundary::text::{decimal_string, decode_context_string};
use call_boundary::{decode_outcome, deserialize_json, translate, Status};
use std::collections::BTreeMap;

#[derive(Debug, PartialEq)]
struct Point {
    x: i64,
}

impl<'de> serde::Deserialize<'de> for Point {
    fn deserialize<D: serde::Deserializer<'de>>(deserializer: D) -> Result<Self, D::Error> {
        let fields = BTreeMap::<String, i64>::deserialize(deserializer)?;
        match fields.get("x") {
            Some(x) => Ok(Point { x: *x }),
            None => Err(serde::de::Error::missing_field("x")),
        }
    }
}

#[test]
fn decode_returns_the_value_of_matching_text() {
    let point = deserialize_json::<Point>("{\"x\": 3}", "Point").unwrap();
    assert_eq!(point, Point { x: 3 });
    let list = deserialize_json::<Vec<u64>>("[1, 2, 3]", "list").unwrap();
    assert_eq!(list, vec![1, 2, 3]);
    let flag = deserialize_json::<bool>("true", "bool").unwrap();
    assert!(flag);
}

#[test]
fn decode_after_encode_gives_the_same_value() {
    let first = deserialize_json::<BTreeMap<String, Vec<i64>>>(
        "{\"b\": [1, -2], \"a\": []}",
        "table",
    )
    .unwrap();
    let encoded = serde_json::to_string(&first).unwrap();
    assert_eq!(encoded, "{\"a\":[],\"b\":[1,-2]}");
    let second = deserialize_json::<BTreeMap<String, Vec<i64>>>(&encoded, "table").unwrap();
    assert_eq!(first, second);
    let again = serde_json::to_string(&second).unwrap();
    assert_eq!(encoded, again);
}

#[test]
fn decode_failure_names_shape_and_quotes_text() {
    let text = "{\"x\": ";
    let failure = deserialize_json::<Point>(text, "Point").unwrap_err();
    let shown = format!("{}", failure);
    assert_eq!(shown, "failed to deserialize as Point\nJSON: {\"x\": ");
    assert!(shown.contains("Point"));
    assert!(shown.contains(text));
    let host = translate(failure);
    assert_eq!(host.status, Status::GenericFailure);
    assert!(host.reason.starts_with("failed to deserialize as Point\nJSON: {\"x\": \n\nCaused by:\n    "));
    assert!(host.reason.contains("EOF while parsing"));
}

#[test]
fn decode_failure_keeps_the_parsers_error_as_root_cause() {
    let failure = deserialize_json::<Point>("[1]", "Point").unwrap_err();
    let messages: Vec<String> = failure.chain().map(|cause| cause.to_string()).collect();
    assert_eq!(messages.len(), 2);
    assert_eq!(messages[0], "failed to deserialize as Point\nJSON: [1]");
    assert!(messages[1].contains("invalid type"));
    assert!(failure.root_cause().downcast_ref::<serde_json::Error>().is_some());
}

#[test]
fn decode_of_empty_text_fails() {
    let failure = deserialize_json::<Point>("", "Point").unwrap_err();
    assert_eq!(format!("{}", failure), "failed to deserialize as Point\nJSON: ");
    let host = translate(failure);
    assert!(host.reason.contains("EOF while parsing a value"));
}

#[test]
fn decode_of_mismatched_shape_fails() {
    let text = "{\"x\": \"bad\"}";
    let failure = deserialize_json::<Point>(text, "Point").unwrap_err();
    assert_eq!(
        format!("{}", failure),
        "failed to deserialize as Point\nJSON: {\"x\": \"bad\"}"
    );
    let missing = deserialize_json::<Point>("{\"y\": 1}", "Point").unwrap_err();
    assert!(translate(missing).reason.contains("missing field `x`"));
}

#[test]
fn decode_is_repeatable() {
    let text = "[1, 2";
    let first = translate(deserialize_json::<Vec<u8>>(text, "bytes").unwrap_err());
    let second = translate(deserialize_json::<Vec<u8>>(text, "bytes").unwrap_err());
    assert_eq!(first.reason, second.reason);
    assert_eq!(first.status, second.status);
    let one = deserialize_json::<Vec<u8>>("[1, 2]", "bytes").unwrap();
    let two = deserialize_json::<Vec<u8>>("[1, 2]", "bytes").unwrap();
    assert_eq!(one, two);
}

#[test]
fn decode_outcome_passes_a_parsed_value_through() {
    let parsed: Result<u32, serde_json::Error> = serde_json::from_str("17");
    assert_eq!(decode_outcome(parsed, "u32", "17").unwrap(), 17);
}

#[test]
fn decode_outcome_layers_context_over_the_parsers_error() {
    let parsed: Result<u32, serde_json::Error> = serde_json::from_str("x");
    let cause = serde_json::from_str::<u32>("x").unwrap_err().to_string();
    let failure = decode_outcome(parsed, "u32", "x").unwrap_err();
    assert_eq!(failure.chain().count(), 2);
    let messages: Vec<String> = failure.chain().map(|layer| layer.to_string()).collect();
    assert_eq!(messages, vec!["failed to deserialize as u32\nJSON: x".to_string(), cause]);
}

#[test]
fn decode_context_is_written_exactly() {
    assert_eq!(
        decode_context_string("alloc::vec::Vec<u8>", "[1,"),
        "failed to deserialize as alloc::vec::Vec<u8>\nJSON: [1,"
    );
    assert_eq!(decode_context_string("", ""), "failed to deserialize as \nJSON: ");
}

#[test]
fn decimal_numerals_are_exact() {
    assert_eq!(decimal_string(0), "0");
    assert_eq!(decimal_string(7), "7");
    assert_eq!(decimal_string(10), "10");
    assert_eq!(decimal_string(109), "109");
    assert_eq!(decimal_string(12345), "12345");
    assert_eq!(decimal_string(usize::MAX), usize::MAX.to_string());
}
