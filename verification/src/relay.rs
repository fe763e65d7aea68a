//! Typed identifier wrapper, the dispatch traits, the lookup context, and the
//! error taxonomy of node resolution.

use core::marker::PhantomData;
use vstd::prelude::*;
use vstd::utf8::valid_utf8;

use crate::codec;
use crate::codec::{base64_url_of, global_id_chars, global_id_of, splits_first, DecodeError};

verus! {

/// How resolving a node can fail. Lookup functions report their own failures
/// as values of this type too, and the dispatcher passes them through
/// unmodified.
#[derive(Clone, Copy, Debug, PartialEq, Eq, Structural)]
pub enum FetchError {
    /// The identifier is not a well-formed global identifier: not URL-safe
    /// base64, not a UTF-8 payload, or no colon separator.
    InvalidIdentifier,
    /// The identifier is well formed but its type tag names a kind the
    /// schema does not register.
    UnknownNodeType,
    /// The kind is registered but no entity carries the decoded local key.
    NodeNotFound,
}

/// An entity kind that takes part in global object identification.
pub trait RelayNodeStruct {
    /// The kind's type tag, as the text the identifier payload carries.
    spec fn id_typename_spec() -> Seq<char>;

    /// The kind's type tag. It must be unique across all kinds of the
    /// schema: two kinds sharing a tag are silently misrouted.
    fn id_typename() -> (r: String)
        ensures
            r@ == Self::id_typename_spec(),
    ;
}

/// A typed identifier: a local key paired at compile time with its owning
/// entity kind. The kind has no runtime representation; equality and the
/// accessors read the local key only, which is unique within the kind's own
/// namespace and nowhere beyond it.
pub struct RelayNodeID<T: RelayNodeStruct> {
    local_key: String,
    kind: PhantomData<T>,
}

impl<T: RelayNodeStruct> View for RelayNodeID<T> {
    type V = Seq<char>;

    closed spec fn view(&self) -> Seq<char> {
        self.local_key@
    }
}

/// Everything `new_from_relay_id` promises of its result: the same error
/// discipline as the codec's decoder, with the decoded type tag discarded.
pub open spec fn from_relay_id_post<T: RelayNodeStruct>(
    gid: Seq<char>,
    r: Result<RelayNodeID<T>, DecodeError>,
) -> bool {
    &&& (forall|p: Seq<char>| gid == #[trigger] global_id_chars(p) && p.contains(':')
        ==> (r matches Ok(nid) && exists|tag: Seq<char>| splits_first(p, tag, nid@)))
    &&& (forall|p: Seq<char>| gid == #[trigger] global_id_chars(p) && !p.contains(':')
        ==> r == Err::<RelayNodeID<T>, DecodeError>(DecodeError::MalformedId))
    &&& (forall|tag: Seq<char>, key: Seq<char>|
        gid == #[trigger] global_id_of(tag, key) && !tag.contains(':')
        ==> (r matches Ok(nid) && nid@ == key))
    &&& ((forall|b: Seq<u8>| gid != #[trigger] base64_url_of(b))
        ==> r == Err::<RelayNodeID<T>, DecodeError>(DecodeError::InvalidEncoding))
    &&& (forall|b: Seq<u8>| gid == #[trigger] base64_url_of(b) && !valid_utf8(b)
        ==> r == Err::<RelayNodeID<T>, DecodeError>(DecodeError::InvalidEncoding))
}

impl<T: RelayNodeStruct> RelayNodeID<T> {
    /// Wraps a key that is already known to be local, not globally encoded.
    pub fn new(id: &str) -> (r: Self)
        ensures
            r@ == id@,
    {
        RelayNodeID { local_key: id.to_owned(), kind: PhantomData }
    }

    /// Decodes a global identifier and keeps only its local key.
    ///
    /// The decoded type tag is discarded without checking it against this
    /// kind's registered tag, so an identifier minted for another kind
    /// silently yields a typed identifier of this kind with a right-looking
    /// key. That hazard is part of this operation's contract; callers who
    /// need the tag must use the codec's decoder directly.
    pub fn new_from_relay_id(relay_id: String) -> (r: Result<Self, DecodeError>)
        ensures
            from_relay_id_post::<T>(relay_id@, r),
    {
        let ghost gid = relay_id@;
        let decoded = codec::decode(relay_id.as_str());
        match decoded {
            Ok((tag, key)) => {
                let ghost tag_chars = tag@;
                let nid = RelayNodeID { local_key: key, kind: PhantomData };
                proof {
                    assert forall|p: Seq<char>|
                        gid == #[trigger] global_id_chars(p) && p.contains(':')
                        implies exists|t: Seq<char>| splits_first(p, t, nid@) by {
                        assert(splits_first(p, tag_chars, nid@));
                    }
                }
                Ok(nid)
            },
            Err(e) => Err(e),
        }
    }

    /// The wrapped local key, for storage queries and internal processing.
    /// It is not globally unique: only the global identifier is.
    pub fn to_id(&self) -> (r: String)
        ensures
            r@ == self@,
    {
        self.local_key.clone()
    }

    /// The entity's global identifier: the kind's type tag and this local
    /// key, run through the codec's encoder.
    pub fn to_global_id(&self) -> (r: String)
        ensures
            r@ == global_id_of(T::id_typename_spec(), self@),
    {
        let tag = T::id_typename();
        codec::encode(tag.as_str(), self.local_key.as_str())
    }
}

impl<T: RelayNodeStruct> Clone for RelayNodeID<T> {
    /// The clone carries the same local key.
    fn clone(&self) -> (r: Self)
        ensures
            r@ == self@,
    {
        RelayNodeID { local_key: self.local_key.clone(), kind: PhantomData }
    }
}

impl<T: RelayNodeStruct> PartialEq for RelayNodeID<T> {
    fn eq(&self, other: &Self) -> bool {
        self.local_key == other.local_key
    }
}

impl<T: RelayNodeStruct> Eq for RelayNodeID<T> {}

impl<T: RelayNodeStruct> vstd::std_specs::cmp::PartialEqSpecImpl for RelayNodeID<T> {
    open spec fn obeys_eq_spec() -> bool {
        true
    }

    open spec fn eq_spec(&self, other: &Self) -> bool {
        self.view() == other.view()
    }
}

/// Shared data handed to every lookup, so lookups can reach shared resources
/// without global state. It is a statically typed bag: the one field the
/// sample schema needs. An empty context carries no backing data, and the
/// sample lookups then find no entity.
pub struct RelayContext {
    data: Option<String>,
}

impl View for RelayContext {
    type V = Option<Seq<char>>;

    closed spec fn view(&self) -> Option<Seq<char>> {
        match self.data {
            Some(s) => Some(s@),
            None => None,
        }
    }
}

impl RelayContext {
    /// A context that stores a piece of data.
    pub fn new(data: String) -> (r: Self)
        ensures
            r@ == Some(data@),
    {
        RelayContext { data: Some(data) }
    }

    /// An empty context, for callers with no data to share.
    pub fn nil() -> (r: Self)
        ensures
            r@ is None,
    {
        RelayContext { data: None }
    }

    /// The data stored in the context, if there is any.
    pub fn get(&self) -> (r: Option<&String>)
        ensures
            (r matches Some(s) ==> self@ == Some(s@)),
            (r is None ==> self@ is None),
    {
        self.data.as_ref()
    }
}

/// An entity kind that the node query can refetch: how a local key resolves
/// to an entity, against the shared context. Lookups are host-supplied; the
/// sample schema's lookups live beside its kinds.
pub trait RelayNode: Sized {
    /// The node union that a fetched entity is wrapped into.
    type TNode;

    /// The marker that carries this kind's type tag.
    type Kind: RelayNodeStruct;

    /// What this kind's lookup promises of its result.
    spec fn get_post(
        ctx: RelayContext,
        id: RelayNodeID<Self::Kind>,
        r: Result<Option<Self::TNode>, FetchError>,
    ) -> bool;

    /// Resolves a local key to an entity of this kind, to "not found", or to
    /// a lookup failure of the backing store.
    fn get(ctx: RelayContext, id: RelayNodeID<Self::Kind>) -> (r: Result<
        Option<Self::TNode>,
        FetchError,
    >)
        ensures
            Self::get_post(ctx, id, r),
    ;
}

/// The node union: resolves a raw global identifier to whichever entity kind
/// it names.
pub trait RelayNodeInterface: Sized {
    /// What resolving an identifier against this union promises.
    spec fn fetch_post(ctx: RelayContext, relay_id: Seq<char>, r: Result<Self, FetchError>) -> bool;

    /// Resolves a raw global identifier: decodes it, routes the decoded tag
    /// to the matching kind's lookup, and wraps the entity it finds.
    fn fetch_node(ctx: RelayContext, relay_id: String) -> (r: Result<Self, FetchError>)
        ensures
            Self::fetch_post(ctx, relay_id@, r),
    ;
}

} // verus!
