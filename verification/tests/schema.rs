use relay_node::codec::encode;
use relay_node::relay::{FetchError, RelayContext, RelayNode, RelayNodeID, RelayNodeInterface};
use relay_node::schema::{Node, QueryRoot, Tenant, TenantKind, User, UserKind};

fn ctx() -> RelayContext {
    RelayContext::new("Hello World".to_string())
}

#[test]
fn fetch_node_dispatches_to_user() {
    let r = Node::fetch_node(ctx(), encode("User", "1"));
    match r {
        Ok(Node::User(u)) => {
            // the sample store yields its fixed fixture, whatever key is asked
            assert_eq!(u.id.to_id(), "92ba0c2d-4b4e-4e29-91dd-8f96a078c3ff");
            assert_eq!(u.name, "Oscar");
            assert_eq!(u.role, "Testing123");
        },
        _ => panic!("expected a user node"),
    }
}

#[test]
fn fetch_node_dispatches_to_tenant() {
    let r = Node::fetch_node(ctx(), encode("Tenant", "t-9"));
    match r {
        Ok(Node::Tenant(t)) => {
            assert_eq!(t.id.to_id(), "92ba0c2d-4b4e-4e29-91dd-8f96a078c3ff");
            assert_eq!(t.name, "My Company");
            assert_eq!(t.description, "Testing123");
        },
        _ => panic!("expected a tenant node"),
    }
}

#[test]
fn fetch_node_unknown_kind() {
    let r = Node::fetch_node(ctx(), encode("Ghost", "1"));
    assert!(matches!(r, Err(FetchError::UnknownNodeType)));
}

#[test]
fn fetch_node_invalid_identifier() {
    let r = Node::fetch_node(ctx(), "%%%".to_string());
    assert!(matches!(r, Err(FetchError::InvalidIdentifier)));
}

#[test]
fn fetch_node_not_found_on_empty_store() {
    let r = Node::fetch_node(RelayContext::nil(), encode("User", "1"));
    assert!(matches!(r, Err(FetchError::NodeNotFound)));
}

#[test]
fn fetch_node_accepts_keys_with_colons() {
    // the key's further colons stay in the decoded key, so the identifier
    // still routes to the user kind
    let r = Node::fetch_node(ctx(), encode("User", "a:b:c"));
    assert!(matches!(r, Ok(Node::User(_))));
}

#[test]
fn nodes_batch_keeps_order_and_isolates_failures() {
    let root = QueryRoot;
    let ids = vec![encode("User", "1"), "%%%".to_string()];
    let out = root.nodes(ids);
    assert_eq!(out.len(), 2);
    assert!(matches!(&out[0], Ok(Node::User(_))));
    assert!(matches!(&out[1], Err(FetchError::InvalidIdentifier)));
}

#[test]
fn query_root_fixtures() {
    let root = QueryRoot;
    let u = root.user();
    assert_eq!(u.id.to_id(), "92ba0c2d-4b4e-4e29-91dd-8f96a078c3ff");
    assert_eq!(u.name, "Oscar");
    assert_eq!(u.role, "Testing123");
    assert_eq!(u.test(), "testing");
    let t = root.tenant();
    assert_eq!(t.id.to_id(), "4e02ec03-f82f-46da-8572-39975bf97d9d");
    assert_eq!(t.name, "My Company");
    assert_eq!(t.description, "Testing123");
}

#[test]
fn direct_lookup_found_and_not_found() {
    let id = RelayNodeID::<UserKind>::new("7");
    match User::get(ctx(), id) {
        Ok(Some(Node::User(u))) => {
            assert_eq!(u.id.to_id(), "92ba0c2d-4b4e-4e29-91dd-8f96a078c3ff");
        },
        _ => panic!("expected the user"),
    }
    let id2 = RelayNodeID::<UserKind>::new("7");
    assert!(matches!(User::get(RelayContext::nil(), id2), Ok(None)));
    let id3 = RelayNodeID::<TenantKind>::new("t");
    match Tenant::get(ctx(), id3) {
        Ok(Some(Node::Tenant(t))) => {
            assert_eq!(t.id.to_id(), "92ba0c2d-4b4e-4e29-91dd-8f96a078c3ff");
        },
        _ => panic!("expected the tenant"),
    }
    let id4 = RelayNodeID::<TenantKind>::new("t");
    assert!(matches!(Tenant::get(RelayContext::nil(), id4), Ok(None)));
}
