use base64::Engine;
use relay_node::codec::{decode, encode, DecodeError};

#[test]
fn encode_known_value() {
    // "User:1" in URL-safe base64 with padding
    assert_eq!(encode("User", "1"), "VXNlcjox");
}

#[test]
fn encode_matches_reference_engine() {
    let ours = encode("User", "92ba0c2d");
    let reference = base64::engine::general_purpose::URL_SAFE.encode("User:92ba0c2d");
    assert_eq!(ours, reference);
}

#[test]
fn round_trip_typical_pair() {
    let id = encode("User", "92ba0c2d-4b4e-4e29-91dd-8f96a078c3ff");
    let (tag, key) = decode(&id).unwrap();
    assert_eq!(tag, "User");
    assert_eq!(key, "92ba0c2d-4b4e-4e29-91dd-8f96a078c3ff");
}

#[test]
fn round_trip_preserves_colons_in_key() {
    let id = encode("User", "a:b:c");
    let (tag, key) = decode(&id).unwrap();
    assert_eq!(tag, "User");
    assert_eq!(key, "a:b:c");
}

#[test]
fn round_trip_empty_tag_and_key() {
    assert_eq!(decode(&encode("", "")).unwrap(), (String::new(), String::new()));
    assert_eq!(decode(&encode("", "key")).unwrap(), ("".to_string(), "key".to_string()));
    assert_eq!(decode(&encode("Tag", "")).unwrap(), ("Tag".to_string(), "".to_string()));
}

#[test]
fn decode_splits_at_first_colon_only() {
    let id = base64::engine::general_purpose::URL_SAFE.encode("a:b:c");
    let (tag, key) = decode(&id).unwrap();
    assert_eq!(tag, "a");
    assert_eq!(key, "b:c");
}

#[test]
fn decode_rejects_non_base64() {
    assert_eq!(decode("%%%"), Err(DecodeError::InvalidEncoding));
}

#[test]
fn decode_rejects_unpadded_base64() {
    // the canonical encoding of "User:12" is "VXNlcjoxMg=="
    assert_eq!(decode("VXNlcjoxMg"), Err(DecodeError::InvalidEncoding));
}

#[test]
fn decode_rejects_non_utf8_payload() {
    let id = base64::engine::general_purpose::URL_SAFE.encode([0xffu8, 0xfe, 0xfd]);
    assert_eq!(decode(&id), Err(DecodeError::InvalidEncoding));
}

#[test]
fn decode_rejects_payload_without_colon() {
    let id = base64::engine::general_purpose::URL_SAFE.encode("nocolon");
    assert_eq!(decode(&id), Err(DecodeError::MalformedId));
}
