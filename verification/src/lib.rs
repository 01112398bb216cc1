//! Typed request layer for a relationship-based permission service.
//!
//! Domain types say what they are through the traits of [`entity`]. The
//! functions of [`spicedb`] and the builders of [`permission`] turn typed
//! values into the messages of the service's protocol, and the replies
//! back into typed results. The library does not talk to the service
//! itself: a builder's `send` checks the request and yields the message
//! to dispatch, the caller dispatches it over a transport of its choice,
//! and `decode` reads what came back. An error of the transport, of
//! whatever type, is handed on unchanged in [`Error::Transport`].

pub mod client;
pub mod entity;
pub mod error;
pub mod identifiers;
pub mod permission;
pub mod schema;
pub mod spicedb;

pub use entity::{
    Actor, Caveat, Entity, EntityId, NoCaveat, NoRelations, Permission, Relation, Resource,
    WildCardId,
};
pub use error::{DecodeError, Error, ErrorKind, StatusCode, UsageError};
pub use identifiers::UuidId;
pub use spicedb::relationship_update::Operation as RelationshipOperation;
