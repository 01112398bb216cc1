//! The requests and responses of the permission service.

use crate::spicedb::messages::{
    option_view, vec_view, Consistency, ConsistencyView, Cursor, CursorView, ObjectReference,
    ObjectReferenceView, PartialCaveatInfo, Precondition, PreconditionView, Relationship,
    RelationshipFilter, RelationshipFilterView, RelationshipUpdate, RelationshipUpdateView,
    SubjectReference, SubjectReferenceView, ZedToken,
};
use vstd::prelude::*;

verus! {

/// What a lookup found of one resource or subject.
#[derive(Clone, Copy, Debug, PartialEq, Eq)]
pub enum LookupPermissionship {
    /// The service gave no answer.
    Unspecified,
    /// The permission holds.
    HasPermission,
    /// The permission holds if caveat attributes that the request did not
    /// give turn out right.
    ConditionalPermission,
}

impl LookupPermissionship {
    /// The value that a wire number stands for, if it stands for one.
    pub open spec fn of_number(value: i32) -> Option<LookupPermissionship> {
        if value == 0 {
            Some(LookupPermissionship::Unspecified)
        } else if value == 1 {
            Some(LookupPermissionship::HasPermission)
        } else if value == 2 {
            Some(LookupPermissionship::ConditionalPermission)
        } else {
            None
        }
    }

    /// Reads a wire number; `None` where it stands for no value.
    pub fn from_i32(value: i32) -> (r: Option<LookupPermissionship>)
        ensures
            r == Self::of_number(value),
    {
        if value == 0 {
            Some(LookupPermissionship::Unspecified)
        } else if value == 1 {
            Some(LookupPermissionship::HasPermission)
        } else if value == 2 {
            Some(LookupPermissionship::ConditionalPermission)
        } else {
            None
        }
    }
}

/// Asks the service to apply updates, all or none, if the preconditions hold.
#[derive(Clone, Debug, PartialEq)]
pub struct WriteRelationshipsRequest {
    pub updates: Vec<RelationshipUpdate>,
    pub optional_preconditions: Vec<Precondition>,
}

/// The model of `WriteRelationshipsRequest`: what it holds, as mathematical values.
pub struct WriteRelationshipsRequestView {
    pub updates: Seq<RelationshipUpdateView>,
    pub optional_preconditions: Seq<PreconditionView>,
}

impl View for WriteRelationshipsRequest {
    type V = WriteRelationshipsRequestView;

    open spec fn view(&self) -> WriteRelationshipsRequestView {
        WriteRelationshipsRequestView {
            updates: vec_view(self.updates),
            optional_preconditions: vec_view(self.optional_preconditions),
        }
    }
}

/// The state that holds the write.
#[derive(Clone, Debug, PartialEq)]
pub struct WriteRelationshipsResponse {
    pub written_at: Option<ZedToken>,
}

/// Asks the service to remove the relationships that a filter matches.
/// A limit of 0 stands for none.
#[derive(Clone, Debug, PartialEq)]
pub struct DeleteRelationshipsRequest {
    pub relationship_filter: Option<RelationshipFilter>,
    pub optional_preconditions: Vec<Precondition>,
    pub optional_limit: u32,
    pub optional_allow_partial_deletions: bool,
}

/// The model of `DeleteRelationshipsRequest`: what it holds, as mathematical values.
pub struct DeleteRelationshipsRequestView {
    pub relationship_filter: Option<RelationshipFilterView>,
    pub optional_preconditions: Seq<PreconditionView>,
    pub optional_limit: u32,
    pub optional_allow_partial_deletions: bool,
}

impl View for DeleteRelationshipsRequest {
    type V = DeleteRelationshipsRequestView;

    open spec fn view(&self) -> DeleteRelationshipsRequestView {
        DeleteRelationshipsRequestView {
            relationship_filter: option_view(self.relationship_filter),
            optional_preconditions: vec_view(self.optional_preconditions),
            optional_limit: self.optional_limit,
            optional_allow_partial_deletions: self.optional_allow_partial_deletions,
        }
    }
}

/// `deletion_progress` holds the wire number of a `DeletionProgress`.
#[derive(Clone, Debug, PartialEq)]
pub struct DeleteRelationshipsResponse {
    pub deleted_at: Option<ZedToken>,
    pub deletion_progress: i32,
}

/// Asks whether a subject has a permission on a resource.
#[derive(Clone, Debug, PartialEq)]
pub struct CheckPermissionRequest {
    pub consistency: Option<Consistency>,
    pub resource: Option<ObjectReference>,
    pub permission: String,
    pub subject: Option<SubjectReference>,
    pub context: Option<prost_types::Struct>,
    pub with_tracing: bool,
}

/// The model of `CheckPermissionRequest`: what it holds, as mathematical values.
pub struct CheckPermissionRequestView {
    pub consistency: Option<ConsistencyView>,
    pub resource: Option<ObjectReferenceView>,
    pub permission: Seq<char>,
    pub subject: Option<SubjectReferenceView>,
    pub context: Option<prost_types::Struct>,
    pub with_tracing: bool,
}

impl View for CheckPermissionRequest {
    type V = CheckPermissionRequestView;

    open spec fn view(&self) -> CheckPermissionRequestView {
        CheckPermissionRequestView {
            consistency: option_view(self.consistency),
            resource: option_view(self.resource),
            permission: self.permission@,
            subject: option_view(self.subject),
            context: self.context,
            with_tracing: self.with_tracing,
        }
    }
}

/// `permissionship` holds the wire number of a
/// `check_permission_response::Permissionship`.
#[derive(Clone, Debug, PartialEq)]
pub struct CheckPermissionResponse {
    pub checked_at: Option<ZedToken>,
    pub permissionship: i32,
    pub partial_caveat_info: Option<PartialCaveatInfo>,
}

/// Asks for the resources of one type that a subject has a permission
/// on. A limit of 0 stands for none.
#[derive(Clone, Debug, PartialEq)]
pub struct LookupResourcesRequest {
    pub consistency: Option<Consistency>,
    pub resource_object_type: String,
    pub permission: String,
    pub subject: Option<SubjectReference>,
    pub context: Option<prost_types::Struct>,
    pub optional_limit: u32,
    pub optional_cursor: Option<Cursor>,
}

/// The model of `LookupResourcesRequest`: what it holds, as mathematical values.
pub struct LookupResourcesRequestView {
    pub consistency: Option<ConsistencyView>,
    pub resource_object_type: Seq<char>,
    pub permission: Seq<char>,
    pub subject: Option<SubjectReferenceView>,
    pub context: Option<prost_types::Struct>,
    pub optional_limit: u32,
    pub optional_cursor: Option<CursorView>,
}

impl View for LookupResourcesRequest {
    type V = LookupResourcesRequestView;

    open spec fn view(&self) -> LookupResourcesRequestView {
        LookupResourcesRequestView {
            consistency: option_view(self.consistency),
            resource_object_type: self.resource_object_type@,
            permission: self.permission@,
            subject: option_view(self.subject),
            context: self.context,
            optional_limit: self.optional_limit,
            optional_cursor: option_view(self.optional_cursor),
        }
    }
}

/// One found resource. `permissionship` holds the wire number of a
/// `LookupPermissionship`.
#[derive(Clone, Debug, PartialEq)]
pub struct LookupResourcesResponse {
    pub looked_up_at: Option<ZedToken>,
    pub resource_object_id: String,
    pub permissionship: i32,
    pub partial_caveat_info: Option<PartialCaveatInfo>,
    pub after_result_cursor: Option<Cursor>,
}

/// Asks for the subjects of one type that have a permission on a
/// resource. A limit of 0 stands for none; `wildcard_option` holds the
/// wire number of a `lookup_subjects_request::WildcardOption`.
#[derive(Clone, Debug, PartialEq)]
pub struct LookupSubjectsRequest {
    pub consistency: Option<Consistency>,
    pub resource: Option<ObjectReference>,
    pub permission: String,
    pub subject_object_type: String,
    pub optional_subject_relation: String,
    pub context: Option<prost_types::Struct>,
    pub optional_concrete_limit: u32,
    pub optional_cursor: Option<Cursor>,
    pub wildcard_option: i32,
}

/// The model of `LookupSubjectsRequest`: what it holds, as mathematical values.
pub struct LookupSubjectsRequestView {
    pub consistency: Option<ConsistencyView>,
    pub resource: Option<ObjectReferenceView>,
    pub permission: Seq<char>,
    pub subject_object_type: Seq<char>,
    pub optional_subject_relation: Seq<char>,
    pub context: Option<prost_types::Struct>,
    pub optional_concrete_limit: u32,
    pub optional_cursor: Option<CursorView>,
    pub wildcard_option: i32,
}

impl View for LookupSubjectsRequest {
    type V = LookupSubjectsRequestView;

    open spec fn view(&self) -> LookupSubjectsRequestView {
        LookupSubjectsRequestView {
            consistency: option_view(self.consistency),
            resource: option_view(self.resource),
            permission: self.permission@,
            subject_object_type: self.subject_object_type@,
            optional_subject_relation: self.optional_subject_relation@,
            context: self.context,
            optional_concrete_limit: self.optional_concrete_limit,
            optional_cursor: option_view(self.optional_cursor),
            wildcard_option: self.wildcard_option,
        }
    }
}

/// A subject that a lookup found or excluded. `permissionship` holds the
/// wire number of a `LookupPermissionship`.
#[derive(Clone, Debug, PartialEq)]
pub struct ResolvedSubject {
    pub subject_object_id: String,
    pub permissionship: i32,
    pub partial_caveat_info: Option<PartialCaveatInfo>,
}

/// One element of a subject lookup: a found subject, which may be the
/// wildcard, and the subjects that are excluded from it.
#[derive(Clone, Debug, PartialEq)]
pub struct LookupSubjectsResponse {
    pub looked_up_at: Option<ZedToken>,
    pub subject: Option<ResolvedSubject>,
    pub excluded_subjects: Vec<ResolvedSubject>,
    pub after_result_cursor: Option<Cursor>,
}

/// Asks for the stored relationships that a filter matches. A limit of 0
/// stands for none.
#[derive(Clone, Debug, PartialEq)]
pub struct ReadRelationshipsRequest {
    pub consistency: Option<Consistency>,
    pub relationship_filter: Option<RelationshipFilter>,
    pub optional_limit: u32,
    pub optional_cursor: Option<Cursor>,
}

/// The model of `ReadRelationshipsRequest`: what it holds, as mathematical values.
pub struct ReadRelationshipsRequestView {
    pub consistency: Option<ConsistencyView>,
    pub relationship_filter: Option<RelationshipFilterView>,
    pub optional_limit: u32,
    pub optional_cursor: Option<CursorView>,
}

impl View for ReadRelationshipsRequest {
    type V = ReadRelationshipsRequestView;

    open spec fn view(&self) -> ReadRelationshipsRequestView {
        ReadRelationshipsRequestView {
            consistency: option_view(self.consistency),
            relationship_filter: option_view(self.relationship_filter),
            optional_limit: self.optional_limit,
            optional_cursor: option_view(self.optional_cursor),
        }
    }
}

/// One element of a stream of stored relationships.
#[derive(Clone, Debug, PartialEq)]
pub struct ReadRelationshipsResponse {
    pub read_at: Option<ZedToken>,
    pub relationship: Option<Relationship>,
    pub after_result_cursor: Option<Cursor>,
}

} // verus!
