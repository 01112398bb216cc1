//! The request builders. A builder accumulates a request through its
//! setters, which never fail. Its `send` closes it: it checks what is
//! required and yields the message to dispatch. What the transport makes
//! of the message goes to the builder's `decode`, which yields the typed
//! result.

pub mod check_permission;
pub mod delete_relationships;
pub mod lookup_resources;
pub mod lookup_subjects;
pub mod read_relationships;
pub mod write_relationships;

pub use self::check_permission::CheckPermissionRequest;
pub use self::delete_relationships::DeleteRelationshipsRequest;
pub use self::lookup_resources::LookupResourcesRequest;
pub use self::lookup_subjects::LookupSubjectsRequest;
pub use self::read_relationships::ReadRelationshipsRequest;
pub use self::write_relationships::WriteRelationshipsRequest;
