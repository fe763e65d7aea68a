use base64::Engine;
use relay_node::codec::{encode, DecodeError};
use relay_node::relay::{RelayContext, RelayNodeID, RelayNodeStruct};
use relay_node::schema::{TenantKind, UserKind};

#[test]
fn new_and_to_id() {
    let id = RelayNodeID::<UserKind>::new("42");
    assert_eq!(id.to_id(), "42");
}

#[test]
fn to_global_id_prefixes_the_tag() {
    let id = RelayNodeID::<UserKind>::new("1");
    assert_eq!(id.to_global_id(), "VXNlcjox");
    assert_eq!(id.to_global_id(), encode("User", "1"));
    let tid = RelayNodeID::<TenantKind>::new("1");
    assert_eq!(tid.to_global_id(), encode("Tenant", "1"));
}

#[test]
fn typed_ids_equal_on_local_key_only() {
    let a = RelayNodeID::<UserKind>::new("same");
    let b = RelayNodeID::<UserKind>::new("same");
    let c = RelayNodeID::<UserKind>::new("other");
    assert!(a == b);
    assert!(a != c);
    let d = a.clone();
    assert!(d == a);
}

#[test]
fn new_from_relay_id_round_trip() {
    let gid = encode("User", "u-7");
    let id = RelayNodeID::<UserKind>::new_from_relay_id(gid).unwrap();
    assert_eq!(id.to_id(), "u-7");
}

#[test]
fn new_from_relay_id_keeps_colons_in_key() {
    let gid = encode("User", "a:b:c");
    let id = RelayNodeID::<UserKind>::new_from_relay_id(gid).unwrap();
    assert_eq!(id.to_id(), "a:b:c");
}

#[test]
fn new_from_relay_id_discards_the_tag() {
    // documented hazard: a tenant identifier yields a user-typed handle
    let gid = encode("Tenant", "t-1");
    let id = RelayNodeID::<UserKind>::new_from_relay_id(gid).unwrap();
    assert_eq!(id.to_id(), "t-1");
}

#[test]
fn new_from_relay_id_rejects_malformed() {
    let bad = RelayNodeID::<UserKind>::new_from_relay_id("%%%".to_string());
    assert!(matches!(bad, Err(DecodeError::InvalidEncoding)));
    let no_colon = base64::engine::general_purpose::URL_SAFE.encode("nocolon");
    let bad2 = RelayNodeID::<UserKind>::new_from_relay_id(no_colon);
    assert!(matches!(bad2, Err(DecodeError::MalformedId)));
}

#[test]
fn context_stores_and_returns_data() {
    let ctx = RelayContext::new("db-handle".to_string());
    assert_eq!(ctx.get(), Some(&"db-handle".to_string()));
    let nil = RelayContext::nil();
    assert!(nil.get().is_none());
}

#[test]
fn id_typename_of_kinds() {
    assert_eq!(UserKind::id_typename(), "User");
    assert_eq!(TenantKind::id_typename(), "Tenant");
}
