//! The requests of the most common calls, each made in one step, and
//! what the caller gets of them.

use crate::entity::{Actor, Entity, Permission, Relation, Resource};
use crate::error::{Error, UsageError};
use crate::permission::check_permission::CheckPermissionRequest;
use crate::permission::delete_relationships::{decode, deleted, DeleteRelationshipsRequest};
use crate::permission::lookup_resources::LookupResourcesRequest;
use crate::permission::lookup_subjects::LookupSubjectsRequest;
use crate::permission::write_relationships::{refusal, WriteRelationshipsRequest};
use crate::spicedb::helpers::{
    id_wire, object_reference, object_reference_of, relation_name, relationship_filter_of,
};
use crate::spicedb::lookup_subjects_request::WildcardOption;
use crate::spicedb::messages::{
    option_view, seq_view, vec_view, Precondition, RelationshipUpdate, SubjectFilter, ZedToken,
};
use crate::spicedb::permission_service::{
    CheckPermissionRequestView, DeleteRelationshipsRequestView, DeleteRelationshipsResponse,
    LookupResourcesRequestView, LookupSubjectsRequestView, WriteRelationshipsRequestView,
};
use crate::spicedb::wrappers::Consistency;
use crate::spicedb::permission_service as wire;
use vstd::prelude::*;

verus! {

/// The consistency that a call has when it is made at a token, or not.
pub open spec fn at_least_as_fresh(token: Option<ZedToken>) -> Option<
    crate::spicedb::messages::ConsistencyView,
> {
    match token {
        Some(token) => Some(Consistency::AtLeastAsFresh(token)@),
        None => None,
    }
}

/// The deletion of the relationships of resources of type `R`, narrowed
/// by what is given. With nothing given it removes them all.
pub fn delete_relationships<R>(
    id: Option<R::Id>,
    relation: Option<R::Relations>,
    subject_filter: Option<SubjectFilter>,
) -> (message: wire::DeleteRelationshipsRequest) where R: Resource
    requires
        relation matches Some(r) ==> r.has_name(),
    ensures
        message@ == (DeleteRelationshipsRequestView {
            relationship_filter: Some(
                relationship_filter_of(
                    R::object_type_spec(),
                    id_wire::<R>(id),
                    None,
                    relation_name(relation),
                    option_view(subject_filter),
                ),
            ),
            optional_preconditions: Seq::empty(),
            optional_limit: 0,
            optional_allow_partial_deletions: false,
        }),
{
    let mut request = DeleteRelationshipsRequest::<R>::new();
    if let Some(id) = id {
        request.with_id(id);
    }
    if let Some(relation) = relation {
        request.with_relation(relation);
    }
    if let Some(subject_filter) = subject_filter {
        request.with_subject_filter(subject_filter);
    }
    request.send()
}

/// What the caller gets of a dispatched deletion where only the token
/// is wanted.
pub fn decode_delete_relationships<T>(reply: Result<DeleteRelationshipsResponse, T>) -> (r: Result<
    ZedToken,
    Error<T>,
>)
    ensures
        r == (match deleted(reply) {
            Ok((token, _)) => Ok::<ZedToken, Error<T>>(token),
            Err(e) => Err(e),
        }),
{
    match decode(reply) {
        Ok((token, _)) => Ok(token),
        Err(e) => Err(e),
    }
}

/// The write of the given updates under the given preconditions, each
/// list in its order; or the reason why the write may not be dispatched.
pub fn create_relationships(
    relationships: Vec<RelationshipUpdate>,
    preconditions: Vec<Precondition>,
) -> (r: Result<wire::WriteRelationshipsRequest, UsageError>)
    ensures
        match r {
            Ok(message) => refusal(create_relationships_message(relationships, preconditions))
                is None && message@ == create_relationships_message(relationships, preconditions),
            Err(e) => refusal(create_relationships_message(relationships, preconditions))
                == Some(e),
        },
{
    let mut request = WriteRelationshipsRequest::new();
    let ghost conditions = preconditions@;
    let ghost updates = relationships@;
    for precondition in it: preconditions.into_iter()
        invariant
            it.seq() == conditions,
            request@.updates == Seq::<crate::spicedb::messages::RelationshipUpdateView>::empty(),
            request@.optional_preconditions == seq_view(conditions.take(it.index() as int)),
    {
        assert(seq_view(conditions.take(it.index() + 1)) =~= seq_view(
            conditions.take(it.index() as int),
        ).push(precondition@));
        request.add_precondition_raw(precondition);
    }
    assert(conditions.take(conditions.len() as int) =~= conditions);
    for relationship in it: relationships.into_iter()
        invariant
            it.seq() == updates,
            request@.optional_preconditions == seq_view(conditions),
            request@.updates == seq_view(updates.take(it.index() as int)),
    {
        assert(seq_view(updates.take(it.index() + 1)) =~= seq_view(
            updates.take(it.index() as int),
        ).push(relationship@));
        request.add_relationship_raw(relationship);
    }
    assert(updates.take(updates.len() as int) =~= updates);
    request.send()
}

/// The message that writes the given updates under the given
/// preconditions.
pub open spec fn create_relationships_message(
    relationships: Vec<RelationshipUpdate>,
    preconditions: Vec<Precondition>,
) -> WriteRelationshipsRequestView {
    WriteRelationshipsRequestView {
        updates: vec_view(relationships),
        optional_preconditions: vec_view(preconditions),
    }
}

/// The lookup of the resources of type `R` that the actor has the
/// permission on, at the service's own choice of consistency.
pub fn lookup_resources<R, A>(
    actor: &A,
    permission: R::Permissions,
) -> (message: wire::LookupResourcesRequest) where R: Resource, A: Actor
    ensures
        message@ == lookup_resources_message::<R>(
            actor.subject_spec(),
            permission.name_spec(),
            None,
        ),
{
    let mut request = LookupResourcesRequest::<R>::new();
    request.permission(permission);
    request.actor(actor);
    match request.send_collect_ids() {
        Ok(message) => message,
        Err(_) => vstd::pervasive::unreached(),
    }
}

/// The lookup of the resources of type `R` that the actor has the
/// permission on, in a state at least as fresh as the token's.
pub fn lookup_resources_at<R, A>(
    actor: &A,
    permission: R::Permissions,
    token: ZedToken,
) -> (message: wire::LookupResourcesRequest) where R: Resource, A: Actor
    ensures
        message@ == lookup_resources_message::<R>(
            actor.subject_spec(),
            permission.name_spec(),
            Some(token),
        ),
{
    let mut request = LookupResourcesRequest::<R>::new();
    request.permission(permission);
    request.actor(actor);
    request.with_consistency(Consistency::AtLeastAsFresh(token));
    match request.send_collect_ids() {
        Ok(message) => message,
        Err(_) => vstd::pervasive::unreached(),
    }
}

/// The message that looks up the resources of type `R`.
pub open spec fn lookup_resources_message<R: Resource>(
    subject: crate::spicedb::messages::SubjectReferenceView,
    permission: Seq<char>,
    token: Option<ZedToken>,
) -> LookupResourcesRequestView {
    LookupResourcesRequestView {
        consistency: at_least_as_fresh(token),
        resource_object_type: R::object_type_spec(),
        permission,
        subject: Some(subject),
        context: None,
        optional_limit: 0,
        optional_cursor: None,
    }
}

/// The lookup of the subjects of type `S` that have the permission on a
/// resource, at the service's own choice of consistency.
pub fn lookup_subjects<S, R>(
    id: R::Id,
    permission: R::Permissions,
) -> (message: wire::LookupSubjectsRequest) where S: Entity, R: Resource
    ensures
        message@ == lookup_subjects_message::<S, R>(id, permission.name_spec(), None),
{
    let mut request = LookupSubjectsRequest::<S, R>::new();
    request.resource(id, permission);
    match request.send_collect_ids() {
        Ok(message) => message,
        Err(_) => vstd::pervasive::unreached(),
    }
}

/// The lookup of the subjects of type `S` that have the permission on a
/// resource, in a state at least as fresh as the token's.
pub fn lookup_subjects_at<S, R>(
    id: R::Id,
    permission: R::Permissions,
    token: ZedToken,
) -> (message: wire::LookupSubjectsRequest) where S: Entity, R: Resource
    ensures
        message@ == lookup_subjects_message::<S, R>(id, permission.name_spec(), Some(token)),
{
    let mut request = LookupSubjectsRequest::<S, R>::new();
    request.resource(id, permission);
    request.with_consistency(Consistency::AtLeastAsFresh(token));
    match request.send_collect_ids() {
        Ok(message) => message,
        Err(_) => vstd::pervasive::unreached(),
    }
}

/// The message that looks up the subjects of type `S`.
pub open spec fn lookup_subjects_message<S: Entity, R: Resource>(
    id: R::Id,
    permission: Seq<char>,
    token: Option<ZedToken>,
) -> LookupSubjectsRequestView {
    LookupSubjectsRequestView {
        consistency: at_least_as_fresh(token),
        resource: Some(object_reference_of::<R>(id)),
        permission,
        subject_object_type: S::object_type_spec(),
        optional_subject_relation: Seq::empty(),
        context: None,
        optional_concrete_limit: 0,
        optional_cursor: None,
        wildcard_option: WildcardOption::Unspecified.number(),
    }
}

/// The check whether the actor has the permission on a resource, at the
/// service's own choice of consistency.
pub fn check_permission<R, A>(
    actor: &A,
    resource_id: R::Id,
    permission: R::Permissions,
) -> (message: wire::CheckPermissionRequest) where R: Resource, A: Actor
    ensures
        message@ == check_permission_message::<R>(
            actor.subject_spec(),
            resource_id,
            permission.name_spec(),
            None,
        ),
{
    let mut request = CheckPermissionRequest::<R>::new();
    request.subject(actor.to_subject());
    request.resource(object_reference::<R>(resource_id));
    request.permission(permission);
    match request.send() {
        Ok(message) => message,
        Err(_) => vstd::pervasive::unreached(),
    }
}

/// The check whether the actor has the permission on a resource, in a
/// state at least as fresh as the token's.
pub fn check_permission_at<R, A>(
    actor: &A,
    resource_id: R::Id,
    permission: R::Permissions,
    token: ZedToken,
) -> (message: wire::CheckPermissionRequest) where
    R: Resource,
    A: Actor,

    ensures
        message@ == check_permission_message::<R>(
            actor.subject_spec(),
            resource_id,
            permission.name_spec(),
            Some(token),
        ),
{
    let mut request = CheckPermissionRequest::<R>::new();
    request.subject(actor.to_subject());
    request.resource(object_reference::<R>(resource_id));
    request.permission(permission);
    request.consistency(Consistency::AtLeastAsFresh(token));
    match request.send() {
        Ok(message) => message,
        Err(_) => vstd::pervasive::unreached(),
    }
}

/// The message that checks a permission on a resource of type `R`.
pub open spec fn check_permission_message<R: Resource>(
    subject: crate::spicedb::messages::SubjectReferenceView,
    resource_id: R::Id,
    permission: Seq<char>,
    token: Option<ZedToken>,
) -> CheckPermissionRequestView {
    CheckPermissionRequestView {
        consistency: at_least_as_fresh(token),
        resource: Some(object_reference_of::<R>(resource_id)),
        permission,
        subject: Some(subject),
        context: None,
        with_tracing: false,
    }
}

} // verus!
