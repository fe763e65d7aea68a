//! Relay-style global object identification.
//!
//! Every entity exposed by a schema gets an opaque, globally unique
//! identifier that encodes the entity's kind together with its key inside
//! that kind, and a single `node`-style query resolves any such identifier
//! back to the correct typed entity.
//!
//! The crate has three layers: the identifier codec ([`codec`]), the typed
//! identifier wrapper and dispatch traits ([`relay`]), and a sample schema
//! with two entity kinds wired into the node dispatcher ([`schema`]).

pub mod codec;
pub mod relay;
pub mod schema;
