//! Tests that drive the verified core through a real pull-style
//! cursor: serde_json walks the wire text, hands each observed field
//! name to the library, and skips the paired value, exactly as the
//! benchmark driver does.

use jsonrpc_decode::decode::{decode_keys_enum, decode_keys_str, DecodeError, FieldName};
use jsonrpc_decode::response::{ResponseCow, ResponseKey};
use serde::de::{Deserialize, Deserializer, IgnoredAny, MapAccess, Visitor};

/// The field names of one wire object, in observed order, duplicates
/// kept.
struct FieldNames(Vec<String>);

struct FieldNamesVisitor;

impl<'de> Visitor<'de> for FieldNamesVisitor {
    type Value = FieldNames;

    fn expecting(&self, formatter: &mut std::fmt::Formatter) -> std::fmt::Result {
        formatter.write_str("a map-shaped wire object")
    }

    fn visit_map<A: MapAccess<'de>>(self, mut map: A) -> Result<FieldNames, A::Error> {
        let mut keys = Vec::new();
        while let Some(key) = map.next_key::<String>()? {
            keys.push(key);
            map.next_value::<IgnoredAny>()?;
        }
        Ok(FieldNames(keys))
    }
}

impl<'de> Deserialize<'de> for FieldNames {
    fn deserialize<D: Deserializer<'de>>(der: D) -> Result<FieldNames, D::Error> {
        der.deserialize_map(FieldNamesVisitor)
    }
}

fn decode_enum(input: &str) -> Result<ResponseKey, DecodeError> {
    let keys: FieldNames = serde_json::from_str(input).expect("well-formed wire text");
    decode_keys_enum(&keys.0)
}

fn decode_str(input: &str) -> Result<ResponseCow, DecodeError> {
    let keys: FieldNames = serde_json::from_str(input).expect("well-formed wire text");
    decode_keys_str(&keys.0)
}

#[test]
fn empty_object_text_reports_missing_fields() {
    assert_eq!(decode_enum("{}"), Err(DecodeError::MissingFields));
    assert_eq!(decode_str("{}"), Err(DecodeError::MissingFields));
}

#[test]
fn jsonrpc_only_text_reports_id() {
    let text = "{\"jsonrpc\":null}";
    assert_eq!(decode_enum(text), Err(DecodeError::MissingField(FieldName::Id)));
    assert_eq!(decode_str(text), Err(DecodeError::MissingField(FieldName::Id)));
}

#[test]
fn jsonrpc_and_id_text_reports_payload() {
    let text = "{\"jsonrpc\":null,\"id\":null}";
    assert_eq!(decode_enum(text), Err(DecodeError::MissingField(FieldName::Payload)));
    assert_eq!(decode_str(text), Err(DecodeError::MissingField(FieldName::Payload)));
}

#[test]
fn result_and_error_text_rejected() {
    let text = "{\"jsonrpc\":null,\"id\":null,\"result\":null,\"error\":null}";
    assert_eq!(decode_enum(text), Err(DecodeError::DuplicateField));
    assert_eq!(decode_str(text), Err(DecodeError::DuplicateField));
    let reordered = "{\"error\":null,\"result\":null,\"id\":null,\"jsonrpc\":null}";
    assert_eq!(decode_enum(reordered), Err(DecodeError::DuplicateField));
    assert_eq!(decode_str(reordered), Err(DecodeError::DuplicateField));
}

#[test]
fn nested_unknown_value_is_skipped() {
    let text = "{\"jsonrpc\":null,\"id\":null,\"result\":null,\"extra\":{\"nested\":[1,2,3]}}";
    assert_eq!(decode_enum(text).unwrap().payload, Ok(()));
    assert_eq!(decode_str(text).unwrap().payload, Ok(()));
}

#[test]
fn permuted_valid_text_decodes_identically() {
    let orders = [
        "{\"jsonrpc\":\"2.0\",\"id\":7,\"error\":{\"code\":-1}}",
        "{\"id\":7,\"jsonrpc\":\"2.0\",\"error\":{\"code\":-1}}",
        "{\"error\":{\"code\":-1},\"id\":7,\"jsonrpc\":\"2.0\"}",
    ];
    let expected = decode_enum(orders[0]).unwrap();
    for text in orders {
        assert_eq!(decode_enum(text).unwrap(), expected);
        assert_eq!(decode_str(text).unwrap().payload, expected.payload);
    }
}

#[test]
fn redecoding_the_same_text_is_stable() {
    let text = "{\"jsonrpc\":\"2.0\",\"id\":1,\"result\":{\"ok\":true}}";
    let first = decode_enum(text);
    for _ in 0..5 {
        assert_eq!(decode_enum(text), first);
    }
}

#[test]
fn duplicate_jsonrpc_text_is_tolerated() {
    let text = "{\"jsonrpc\":1,\"jsonrpc\":2,\"id\":null,\"result\":null}";
    assert_eq!(decode_enum(text).unwrap().payload, Ok(()));
    assert_eq!(decode_str(text).unwrap().payload, Ok(()));
}

#[test]
fn escaped_key_text_matches_after_unescaping() {
    let text = "{\"\\u006asonrpc\":null,\"id\":null,\"result\":null}";
    assert_eq!(decode_enum(text).unwrap().payload, Ok(()));
    assert_eq!(decode_str(text).unwrap().payload, Ok(()));
}
