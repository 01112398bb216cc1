//! The wire protocol of the permission service, and the functions that
//! build its messages from typed values.

pub mod check_permission_response;
pub mod consistency;
pub mod delete_relationships_response;
pub mod helpers;
pub mod lookup_subjects_request;
pub mod messages;
pub mod permission_service;
pub mod precondition;
pub mod relationship_update;
pub mod schema_service;
pub mod subject_filter;
pub mod wrappers;

pub use self::messages::{
    Consistency, ContextualizedCaveat, Cursor, ObjectReference, PartialCaveatInfo, Precondition,
    Relationship, RelationshipFilter, RelationshipUpdate, SubjectFilter, SubjectReference,
    ZedToken,
};
pub use self::helpers::{
    caveated_relationship_update, object_reference, precondition, precondition_raw,
    relationship_filter, relationship_filter_raw, relationship_update, subject_filter,
    subject_filter_raw, subject_reference, subject_reference_raw, wildcard_relationship_update,
};
pub use self::permission_service::{
    CheckPermissionRequest, CheckPermissionResponse, DeleteRelationshipsRequest,
    DeleteRelationshipsResponse, LookupPermissionship, LookupResourcesRequest,
    LookupResourcesResponse, LookupSubjectsRequest, LookupSubjectsResponse,
    ReadRelationshipsRequest, ReadRelationshipsResponse, ResolvedSubject,
    WriteRelationshipsRequest, WriteRelationshipsResponse,
};
pub use self::schema_service::{
    ReadSchemaRequest, ReadSchemaResponse, WriteSchemaRequest, WriteSchemaResponse,
};
