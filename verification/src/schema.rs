//! A sample schema: two entity kinds, the node union over them, and the
//! query-facing surface.
//!
//! The dispatcher is written out in full: the registry of kinds is the closed
//! chain of tag comparisons inside `fetch_node`, one per variant of the node
//! union, so exhaustiveness over the union is visible at compile time and no
//! runtime fallback hides a missing kind. The sample lookups treat the
//! context's data as their backing store: a context without data is an empty
//! store, in which no entity is found, and a context with data yields the
//! store's fixed fixture entity, whatever key is requested.

use vstd::prelude::*;
use vstd::utf8::valid_utf8;

use crate::codec;
use crate::codec::{base64_url_of, global_id_chars, global_id_of, payload_of};
use crate::relay::{
    FetchError, RelayContext, RelayNode, RelayNodeID, RelayNodeInterface, RelayNodeStruct,
};

verus! {

/// Marker naming the user kind: it carries the "User" type tag that the
/// kind's typed identifiers are bound to.
pub struct UserKind;

/// Marker naming the tenant kind: it carries the "Tenant" type tag that the
/// kind's typed identifiers are bound to.
pub struct TenantKind;

/// A user of the system.
pub struct User {
    /// The user's typed identifier.
    pub id: RelayNodeID<UserKind>,
    /// The user's display name.
    pub name: String,
    /// The user's role.
    pub role: String,
}

/// The mathematical content of a [`User`].
pub struct UserView {
    /// The local key of the user's identifier.
    pub id: Seq<char>,
    /// The display name.
    pub name: Seq<char>,
    /// The role.
    pub role: Seq<char>,
}

impl View for User {
    type V = UserView;

    open spec fn view(&self) -> UserView {
        UserView { id: self.id@, name: self.name@, role: self.role@ }
    }
}

/// A tenant: an organization that users belong to.
pub struct Tenant {
    /// The tenant's typed identifier.
    pub id: RelayNodeID<TenantKind>,
    /// The tenant's display name.
    pub name: String,
    /// A free-form description.
    pub description: String,
}

/// The mathematical content of a [`Tenant`].
pub struct TenantView {
    /// The local key of the tenant's identifier.
    pub id: Seq<char>,
    /// The display name.
    pub name: Seq<char>,
    /// The description.
    pub description: Seq<char>,
}

impl View for Tenant {
    type V = TenantView;

    open spec fn view(&self) -> TenantView {
        TenantView { id: self.id@, name: self.name@, description: self.description@ }
    }
}

/// The node union: every entity kind reachable through the node query.
pub enum Node {
    /// A fetched user.
    User(User),
    /// A fetched tenant.
    Tenant(Tenant),
}

/// The mathematical content of a [`Node`].
pub enum NodeView {
    /// A fetched user.
    User(UserView),
    /// A fetched tenant.
    Tenant(TenantView),
}

impl View for Node {
    type V = NodeView;

    open spec fn view(&self) -> NodeView {
        match self {
            Node::User(u) => NodeView::User(u@),
            Node::Tenant(t) => NodeView::Tenant(t@),
        }
    }
}

impl RelayNodeStruct for UserKind {
    open spec fn id_typename_spec() -> Seq<char> {
        "User"@
    }

    fn id_typename() -> (r: String) {
        "User".to_owned()
    }
}

impl RelayNodeStruct for TenantKind {
    open spec fn id_typename_spec() -> Seq<char> {
        "Tenant"@
    }

    fn id_typename() -> (r: String) {
        "Tenant".to_owned()
    }
}

/// The fixed user fixture the sample store yields, whatever key is
/// requested.
pub open spec fn user_found() -> UserView {
    UserView {
        id: "92ba0c2d-4b4e-4e29-91dd-8f96a078c3ff"@,
        name: "Oscar"@,
        role: "Testing123"@,
    }
}

/// The fixed tenant fixture the sample store yields, whatever key is
/// requested.
pub open spec fn tenant_found() -> TenantView {
    TenantView {
        id: "92ba0c2d-4b4e-4e29-91dd-8f96a078c3ff"@,
        name: "My Company"@,
        description: "Testing123"@,
    }
}

/// What the sample user lookup returns: with backing data, the fixed user
/// fixture, regardless of the requested key; against an empty store,
/// nothing; never an error.
pub open spec fn user_lookup_post(
    ctx: Option<Seq<char>>,
    r: Result<Option<Node>, FetchError>,
) -> bool {
    match ctx {
        Some(_) => (r matches Ok(found) && found matches Some(n) && n@ == NodeView::User(
            user_found(),
        )),
        None => r == Ok::<Option<Node>, FetchError>(None),
    }
}

/// What the sample tenant lookup returns, in the same shape.
pub open spec fn tenant_lookup_post(
    ctx: Option<Seq<char>>,
    r: Result<Option<Node>, FetchError>,
) -> bool {
    match ctx {
        Some(_) => (r matches Ok(found) && found matches Some(n) && n@ == NodeView::Tenant(
            tenant_found(),
        )),
        None => r == Ok::<Option<Node>, FetchError>(None),
    }
}

impl RelayNode for User {
    type TNode = Node;

    type Kind = UserKind;

    open spec fn get_post(
        ctx: RelayContext,
        id: RelayNodeID<UserKind>,
        r: Result<Option<Node>, FetchError>,
    ) -> bool {
        user_lookup_post(ctx@, r)
    }

    fn get(ctx: RelayContext, _id: RelayNodeID<UserKind>) -> (r: Result<
        Option<Node>,
        FetchError,
    >) {
        match ctx.get() {
            Some(_) => Ok(
                Some(
                    Node::User(
                        User {
                            id: RelayNodeID::new("92ba0c2d-4b4e-4e29-91dd-8f96a078c3ff"),
                            name: "Oscar".to_owned(),
                            role: "Testing123".to_owned(),
                        },
                    ),
                ),
            ),
            None => Ok(None),
        }
    }
}

impl RelayNode for Tenant {
    type TNode = Node;

    type Kind = TenantKind;

    open spec fn get_post(
        ctx: RelayContext,
        id: RelayNodeID<TenantKind>,
        r: Result<Option<Node>, FetchError>,
    ) -> bool {
        tenant_lookup_post(ctx@, r)
    }

    fn get(ctx: RelayContext, _id: RelayNodeID<TenantKind>) -> (r: Result<
        Option<Node>,
        FetchError,
    >) {
        match ctx.get() {
            Some(_) => Ok(
                Some(
                    Node::Tenant(
                        Tenant {
                            id: RelayNodeID::new("92ba0c2d-4b4e-4e29-91dd-8f96a078c3ff"),
                            name: "My Company".to_owned(),
                            description: "Testing123".to_owned(),
                        },
                    ),
                ),
            ),
            None => Ok(None),
        }
    }
}

/// Dispatch on a decoded (tag, key) pair: the result resolving it must
/// produce, given the context's data. The key is handed to the matched
/// kind's lookup; the sample lookups return fixed fixtures, so here the
/// result does not depend on it.
pub open spec fn dispatch_spec(
    ctx: Option<Seq<char>>,
    tag: Seq<char>,
    key: Seq<char>,
) -> Result<NodeView, FetchError> {
    if tag == "User"@ {
        match ctx {
            Some(_) => Ok(NodeView::User(user_found())),
            None => Err(FetchError::NodeNotFound),
        }
    } else if tag == "Tenant"@ {
        match ctx {
            Some(_) => Ok(NodeView::Tenant(tenant_found())),
            None => Err(FetchError::NodeNotFound),
        }
    } else {
        Err(FetchError::UnknownNodeType)
    }
}

/// A fetch result, with the entity replaced by its view.
pub open spec fn node_result_view(r: Result<Node, FetchError>) -> Result<NodeView, FetchError> {
    match r {
        Ok(n) => Ok(n@),
        Err(e) => Err(e),
    }
}

/// Everything resolving an identifier against the sample schema promises:
/// a well-formed identifier resolves exactly as [`dispatch_spec`] says of
/// its decoded pair, and every malformed identifier fails with
/// [`FetchError::InvalidIdentifier`].
pub open spec fn node_fetch_post(
    ctx: Option<Seq<char>>,
    gid: Seq<char>,
    r: Result<Node, FetchError>,
) -> bool {
    &&& (forall|tag: Seq<char>, key: Seq<char>|
        gid == #[trigger] global_id_of(tag, key) && !tag.contains(':')
        ==> node_result_view(r) == dispatch_spec(ctx, tag, key))
    &&& (forall|p: Seq<char>| gid == #[trigger] global_id_chars(p) && !p.contains(':')
        ==> r == Err::<Node, FetchError>(FetchError::InvalidIdentifier))
    &&& ((forall|b: Seq<u8>| gid != #[trigger] base64_url_of(b))
        ==> r == Err::<Node, FetchError>(FetchError::InvalidIdentifier))
    &&& (forall|b: Seq<u8>| gid == #[trigger] base64_url_of(b) && !valid_utf8(b)
        ==> r == Err::<Node, FetchError>(FetchError::InvalidIdentifier))
}

impl RelayNodeInterface for Node {
    open spec fn fetch_post(
        ctx: RelayContext,
        relay_id: Seq<char>,
        r: Result<Node, FetchError>,
    ) -> bool {
        node_fetch_post(ctx@, relay_id, r)
    }

    fn fetch_node(ctx: RelayContext, relay_id: String) -> (r: Result<Node, FetchError>) {
        let ghost gid = relay_id@;
        let ghost ctx_v = ctx@;
        let decoded = codec::decode(relay_id.as_str());
        let ghost decoded_g = decoded;
        match decoded {
            Err(_) => {
                proof {
                    assert forall|tag: Seq<char>, key: Seq<char>|
                        !(gid == #[trigger] global_id_of(tag, key) && !tag.contains(':')) by {
                        if gid == global_id_of(tag, key) && !tag.contains(':') {
                            assert(decoded_g is Ok);
                        }
                    }
                }
                Err(FetchError::InvalidIdentifier)
            },
            Ok((tag, key)) => {
                let ghost tag_c = tag@;
                let ghost key_c = key@;
                let user_tag = UserKind::id_typename();
                let r: Result<Node, FetchError> = if tag == user_tag {
                    match <User as RelayNode>::get(ctx, RelayNodeID::new(key.as_str())) {
                        Ok(Some(node)) => Ok(node),
                        Ok(None) => Err(FetchError::NodeNotFound),
                        Err(e) => Err(e),
                    }
                } else {
                    let tenant_tag = TenantKind::id_typename();
                    if tag == tenant_tag {
                        match <Tenant as RelayNode>::get(ctx, RelayNodeID::new(key.as_str())) {
                            Ok(Some(node)) => Ok(node),
                            Ok(None) => Err(FetchError::NodeNotFound),
                            Err(e) => Err(e),
                        }
                    } else {
                        Err(FetchError::UnknownNodeType)
                    }
                };
                proof {
                    assert(gid == base64_url_of(
                        vstd::utf8::encode_utf8(payload_of(tag_c, key_c)),
                    ));
                    assert forall|tag0: Seq<char>, key0: Seq<char>|
                        gid == #[trigger] global_id_of(tag0, key0) && !tag0.contains(':')
                        implies node_result_view(r) == dispatch_spec(ctx_v, tag0, key0) by {
                        assert(tag0 == tag_c && key0 == key_c);
                    }
                }
                r
            },
        }
    }
}

/// Law: dispatch routes by tag alone. A fetched entity is of the user kind
/// exactly when the tag is "User", and of the tenant kind exactly when the
/// tag is "Tenant"; resolving one kind's identifier never reaches another
/// kind's lookup.
pub proof fn lemma_dispatch_routes_by_tag(ctx: Option<Seq<char>>, tag: Seq<char>, key: Seq<char>)
    ensures
        (dispatch_spec(ctx, tag, key) matches Ok(n) ==> ((n is User) <==> tag == "User"@)),
        (dispatch_spec(ctx, tag, key) matches Ok(n) ==> ((n is Tenant) <==> tag == "Tenant"@)),
{
    reveal_strlit("User");
    reveal_strlit("Tenant");
    assert("User"@.len() == 4);
    assert("Tenant"@.len() == 6);
    assert("User"@ != "Tenant"@);
}

/// Law: dispatch fails with `UnknownNodeType` exactly on the tags the schema
/// does not register.
pub proof fn lemma_unknown_kind(ctx: Option<Seq<char>>, tag: Seq<char>, key: Seq<char>)
    ensures
        dispatch_spec(ctx, tag, key) == Err::<NodeView, FetchError>(FetchError::UnknownNodeType)
            <==> (tag != "User"@ && tag != "Tenant"@),
{
}

/// Law: a lookup that finds nothing surfaces as `NodeNotFound`. With a
/// registered tag and an empty store, dispatch fails with `NodeNotFound` —
/// no crash, no silent null, and no other error.
pub proof fn lemma_not_found_propagates(tag: Seq<char>, key: Seq<char>)
    ensures
        (tag == "User"@ || tag == "Tenant"@) ==> dispatch_spec(None, tag, key) == Err::<
            NodeView,
            FetchError,
        >(FetchError::NodeNotFound),
{
}

/// Law: resolving an encoded identifier behaves exactly as dispatch on the
/// encoded pair — the fetch result of `encode(tag, key)` is what
/// [`dispatch_spec`] says, for every tag without a colon and every key.
pub proof fn lemma_fetch_of_encoded_id(
    ctx: Option<Seq<char>>,
    tag: Seq<char>,
    key: Seq<char>,
    r: Result<Node, FetchError>,
)
    requires
        !tag.contains(':'),
        node_fetch_post(ctx, global_id_of(tag, key), r),
    ensures
        node_result_view(r) == dispatch_spec(ctx, tag, key),
{
}

/// The query root: the query-facing surface of the sample schema.
pub struct QueryRoot;

impl QueryRoot {
    /// The sample user fixture.
    pub fn user(&self) -> (r: User)
        ensures
            r@ == (UserView {
                id: "92ba0c2d-4b4e-4e29-91dd-8f96a078c3ff"@,
                name: "Oscar"@,
                role: "Testing123"@,
            }),
    {
        User {
            id: RelayNodeID::new("92ba0c2d-4b4e-4e29-91dd-8f96a078c3ff"),
            name: "Oscar".to_owned(),
            role: "Testing123".to_owned(),
        }
    }

    /// The sample tenant fixture.
    pub fn tenant(&self) -> (r: Tenant)
        ensures
            r@ == (TenantView {
                id: "4e02ec03-f82f-46da-8572-39975bf97d9d"@,
                name: "My Company"@,
                description: "Testing123"@,
            }),
    {
        Tenant {
            id: RelayNodeID::new("4e02ec03-f82f-46da-8572-39975bf97d9d"),
            name: "My Company".to_owned(),
            description: "Testing123".to_owned(),
        }
    }

    /// Resolves a batch of identifiers independently and in input order;
    /// each identifier runs against a fresh context carrying the shared
    /// data, so no resolution affects another.
    pub fn nodes(&self, ids: Vec<String>) -> (r: Vec<Result<Node, FetchError>>)
        ensures
            r@.len() == ids@.len(),
            forall|i: int| 0 <= i < ids@.len() ==> node_fetch_post(
                Some("Hello World"@),
                ids@[i]@,
                #[trigger] r@[i],
            ),
    {
        let mut out: Vec<Result<Node, FetchError>> = Vec::new();
        let mut idx: usize = 0;
        while idx < ids.len()
            invariant
                idx <= ids@.len(),
                out@.len() == idx as int,
                forall|i: int| 0 <= i < idx as int ==> node_fetch_post(
                    Some("Hello World"@),
                    ids@[i]@,
                    #[trigger] out@[i],
                ),
            decreases ids@.len() - idx,
        {
            let ctx = RelayContext::new("Hello World".to_owned());
            let resolved = Node::fetch_node(ctx, ids[idx].clone());
            out.push(resolved);
            idx = idx + 1;
        }
        out
    }
}

impl User {
    /// A fixed probe value for schema tests.
    pub fn test(&self) -> (r: String)
        ensures
            r@ == "testing"@,
    {
        "testing".to_owned()
    }
}

} // verus!
