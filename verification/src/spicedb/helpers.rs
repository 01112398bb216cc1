//! Building references, filters, preconditions and relationship updates
//! from typed values. Whatever is built names its object type.

use crate::entity::{Caveat, Entity, EntityId, Relation, Resource, WildCardId};
use crate::spicedb::messages::{
    ContextualizedCaveat, ContextualizedCaveatView, ObjectReference, ObjectReferenceView,
    Precondition, PreconditionView, Relationship, RelationshipFilter, RelationshipFilterView,
    RelationshipUpdate, RelationshipUpdateView, RelationshipView, SubjectFilter,
    SubjectFilterView, SubjectReference, SubjectReferenceView,
};
use crate::spicedb::precondition::Operation as PreconditionOperation;
use crate::spicedb::relationship_update::Operation;
use crate::spicedb::subject_filter::{RelationFilter, RelationFilterView};
use vstd::prelude::*;

verus! {

/// The given string, or the empty string where none is given.
pub open spec fn or_empty(s: Option<Seq<char>>) -> Seq<char> {
    match s {
        Some(s) => s,
        None => Seq::empty(),
    }
}

/// The wire string of an optional identifier.
pub open spec fn id_wire<E: Entity>(id: Option<E::Id>) -> Option<Seq<char>> {
    match id {
        Some(id) => Some(E::Id::wire(id@)),
        None => None,
    }
}

/// Whether a wire string reads back as the given identifier, where one
/// is given.
pub open spec fn reads_back<E: Entity>(wire: Seq<char>, id: Option<E::Id>) -> bool {
    id matches Some(id) ==> E::Id::parse_wire(wire) == Some(id@)
}

/// The name of an optional relation.
pub open spec fn relation_name<X: Relation>(relation: Option<X>) -> Option<Seq<char>> {
    match relation {
        Some(r) => Some(r.name_spec()),
        None => None,
    }
}

/// The model of an optional string.
pub open spec fn string_view(s: Option<String>) -> Option<Seq<char>> {
    match s {
        Some(s) => Some(s@),
        None => None,
    }
}

/// The subject filter made of a type, an identifier and a relation.
pub open spec fn subject_filter_of(
    subject_type: Seq<char>,
    id: Option<Seq<char>>,
    relation: Option<Seq<char>>,
) -> SubjectFilterView {
    SubjectFilterView {
        subject_type,
        optional_subject_id: or_empty(id),
        optional_relation: match relation {
            Some(r) => Some(RelationFilterView { relation: r }),
            None => None,
        },
    }
}

/// The relationship filter made of a resource type and the optional parts.
pub open spec fn relationship_filter_of(
    resource_type: Seq<char>,
    resource_id: Option<Seq<char>>,
    resource_id_prefix: Option<Seq<char>>,
    relation: Option<Seq<char>>,
    subject_filter: Option<SubjectFilterView>,
) -> RelationshipFilterView {
    RelationshipFilterView {
        resource_type,
        optional_resource_id: or_empty(resource_id),
        optional_resource_id_prefix: or_empty(resource_id_prefix),
        optional_relation: or_empty(relation),
        optional_subject_filter: subject_filter,
    }
}

/// The subject reference made of an identifier, a type and a relation.
pub open spec fn subject_reference_of(
    id: Seq<char>,
    object_type: Seq<char>,
    relation: Option<Seq<char>>,
) -> SubjectReferenceView {
    SubjectReferenceView {
        object: Some(ObjectReferenceView { object_type, object_id: id }),
        optional_relation: or_empty(relation),
    }
}

/// The update that applies `operation` to the relationship between a
/// subject and a resource.
pub open spec fn relationship_update_of(
    operation: Operation,
    subject: SubjectReferenceView,
    resource: ObjectReferenceView,
    relation: Seq<char>,
    caveat: Option<ContextualizedCaveatView>,
) -> RelationshipUpdateView {
    RelationshipUpdateView {
        operation: operation.number(),
        relationship: Some(
            RelationshipView {
                resource: Some(resource),
                relation,
                subject: Some(subject),
                optional_caveat: caveat,
            },
        ),
    }
}

/// The reference to the entity of type `E` with the given identifier.
pub open spec fn object_reference_of<E: Entity>(id: E::Id) -> ObjectReferenceView {
    ObjectReferenceView { object_type: E::object_type_spec(), object_id: E::Id::wire(id@) }
}

fn id_to_wire<E: Entity>(id: Option<E::Id>) -> (s: Option<String>)
    ensures
        string_view(s) == id_wire::<E>(id),
        reads_back::<E>(or_empty(string_view(s)), id),
{
    match id {
        Some(id) => Some(id.into_wire()),
        None => None,
    }
}

fn relation_to_name<X: Relation>(relation: Option<X>) -> (s: Option<String>)
    requires
        relation matches Some(r) ==> r.has_name(),
    ensures
        string_view(s) == relation_name(relation),
{
    match relation {
        Some(r) => Some(r.name().to_owned()),
        None => None,
    }
}

fn unwrap_or_empty(s: Option<String>) -> (r: String)
    ensures
        r@ == or_empty(string_view(s)),
{
    match s {
        Some(s) => s,
        None => String::new(),
    }
}

/// A filter on subjects of type `S`, narrowed by identifier and relation
/// where they are given.
pub fn subject_filter<S>(
    id: Option<S::Id>,
    relation: Option<S::Relations>,
) -> (filter: SubjectFilter) where S: Entity
    requires
        relation matches Some(r) ==> r.has_name(),
    ensures
        filter@ == subject_filter_of(
            S::object_type_spec(),
            id_wire::<S>(id),
            relation_name(relation),
        ),
        filter@.subject_type.len() > 0,
        reads_back::<S>(filter@.optional_subject_id, id),
{
    subject_filter_raw(S::object_type().to_owned(), id_to_wire::<S>(id), relation_to_name(relation))
}

/// A filter on subjects, from strings as they go over the wire.
pub fn subject_filter_raw(
    subject_type: String,
    id: Option<String>,
    relation: Option<String>,
) -> (filter: SubjectFilter)
    ensures
        filter@ == subject_filter_of(subject_type@, string_view(id), string_view(relation)),
{
    SubjectFilter {
        subject_type,
        optional_subject_id: unwrap_or_empty(id),
        optional_relation: match relation {
            Some(r) => Some(RelationFilter { relation: r }),
            None => None,
        },
    }
}

/// A filter on the relationships of resources of type `R`, narrowed by the
/// parts that are given.
pub fn relationship_filter<R>(
    resource_id: Option<R::Id>,
    resource_id_prefix: Option<String>,
    relation: Option<R::Relations>,
    subject_filter: Option<SubjectFilter>,
) -> (filter: RelationshipFilter) where R: Resource
    requires
        relation matches Some(r) ==> r.has_name(),
    ensures
        filter@ == relationship_filter_of(
            R::object_type_spec(),
            id_wire::<R>(resource_id),
            string_view(resource_id_prefix),
            relation_name(relation),
            crate::spicedb::messages::option_view(subject_filter),
        ),
        filter@.resource_type.len() > 0,
        reads_back::<R>(filter@.optional_resource_id, resource_id),
{
    relationship_filter_raw(
        R::object_type().to_owned(),
        id_to_wire::<R>(resource_id),
        resource_id_prefix,
        relation_to_name(relation),
        subject_filter,
    )
}

/// A filter on relationships, from strings as they go over the wire.
pub fn relationship_filter_raw(
    resource_type: String,
    resource_id: Option<String>,
    resource_id_prefix: Option<String>,
    relation: Option<String>,
    subject_filter: Option<SubjectFilter>,
) -> (filter: RelationshipFilter)
    ensures
        filter@ == relationship_filter_of(
            resource_type@,
            string_view(resource_id),
            string_view(resource_id_prefix),
            string_view(relation),
            crate::spicedb::messages::option_view(subject_filter),
        ),
{
    RelationshipFilter {
        resource_type,
        optional_resource_id: unwrap_or_empty(resource_id),
        optional_resource_id_prefix: unwrap_or_empty(resource_id_prefix),
        optional_relation: unwrap_or_empty(relation),
        optional_subject_filter: subject_filter,
    }
}

/// A precondition on the relationships of resources of type `R`.
pub fn precondition<R>(
    operation: PreconditionOperation,
    resource_id: Option<R::Id>,
    resource_id_prefix: Option<String>,
    relation: Option<R::Relations>,
    subject_filter: Option<SubjectFilter>,
) -> (condition: Precondition) where R: Resource
    requires
        relation matches Some(r) ==> r.has_name(),
    ensures
        condition@ == (PreconditionView {
            operation: operation.number(),
            filter: Some(
                relationship_filter_of(
                    R::object_type_spec(),
                    id_wire::<R>(resource_id),
                    string_view(resource_id_prefix),
                    relation_name(relation),
                    crate::spicedb::messages::option_view(subject_filter),
                ),
            ),
        }),
        condition@.filter.unwrap().resource_type.len() > 0,
        reads_back::<R>(condition@.filter.unwrap().optional_resource_id, resource_id),
{
    precondition_raw(
        operation,
        R::object_type().to_owned(),
        id_to_wire::<R>(resource_id),
        resource_id_prefix,
        relation_to_name(relation),
        subject_filter,
    )
}

/// A precondition, from strings as they go over the wire.
pub fn precondition_raw(
    operation: PreconditionOperation,
    resource_type: String,
    resource_id: Option<String>,
    resource_id_prefix: Option<String>,
    relation: Option<String>,
    subject_filter: Option<SubjectFilter>,
) -> (condition: Precondition)
    ensures
        condition@ == (PreconditionView {
            operation: operation.number(),
            filter: Some(
                relationship_filter_of(
                    resource_type@,
                    string_view(resource_id),
                    string_view(resource_id_prefix),
                    string_view(relation),
                    crate::spicedb::messages::option_view(subject_filter),
                ),
            ),
        }),
{
    Precondition {
        operation: operation.to_i32(),
        filter: Some(
            relationship_filter_raw(
                resource_type,
                resource_id,
                resource_id_prefix,
                relation,
                subject_filter,
            ),
        ),
    }
}

/// The subject of type `S` with the given identifier, or the set of
/// subjects that the relation spans from it.
pub fn subject_reference<S>(
    id: S::Id,
    relation: Option<S::Relations>,
) -> (subject: SubjectReference) where S: Entity
    requires
        relation matches Some(r) ==> r.has_name(),
    ensures
        subject@ == subject_reference_of(
            S::Id::wire(id@),
            S::object_type_spec(),
            relation_name(relation),
        ),
        subject@.is_complete(),
        reads_back::<S>(subject@.object.unwrap().object_id, Some(id)),
{
    subject_reference_raw(id.into_wire(), S::object_type().to_owned(), relation_to_name(relation))
}

/// A subject, from strings as they go over the wire.
pub fn subject_reference_raw(
    id: String,
    object_type: String,
    relation: Option<String>,
) -> (subject: SubjectReference)
    ensures
        subject@ == subject_reference_of(id@, object_type@, string_view(relation)),
{
    SubjectReference {
        object: Some(ObjectReference { object_type, object_id: id }),
        optional_relation: unwrap_or_empty(relation),
    }
}

/// The entity of type `E` with the given identifier.
pub fn object_reference<E>(id: E::Id) -> (object: ObjectReference) where E: Entity
    ensures
        object@ == object_reference_of::<E>(id),
        object@.object_type.len() > 0,
        reads_back::<E>(object@.object_id, Some(id)),
{
    ObjectReference { object_type: E::object_type().to_owned(), object_id: id.into_wire() }
}

/// The update that applies `operation` to the relationship between every
/// subject of type `S` and one resource.
pub fn wildcard_relationship_update<S, R>(
    operation: Operation,
    resource_id: R::Id,
    relation: R::Relations,
) -> (update: RelationshipUpdate) where S: Entity, R: Resource
    requires
        relation.has_name(),
    ensures
        update@ == relationship_update_of(
            operation,
            subject_reference_of(WildCardId::wire(()), S::object_type_spec(), None),
            object_reference_of::<R>(resource_id),
            relation.name_spec(),
            None,
        ),
        update@.relationship.unwrap().is_complete(),
        reads_back::<R>(
            update@.relationship.unwrap().resource.unwrap().object_id,
            Some(resource_id),
        ),
        WildCardId::parse_wire(
            update@.relationship.unwrap().subject.unwrap().object.unwrap().object_id,
        ) == Some(()),
{
    let subject = subject_reference_raw(WildCardId.into_wire(), S::object_type().to_owned(), None);
    let resource = object_reference::<R>(resource_id);
    RelationshipUpdate {
        operation: operation.to_i32(),
        relationship: Some(
            Relationship {
                resource: Some(resource),
                relation: relation.name().to_owned(),
                subject: Some(subject),
                optional_caveat: None,
            },
        ),
    }
}

/// The update that applies `operation` to the relationship between one
/// subject and one resource.
pub fn relationship_update<S, R>(
    operation: Operation,
    subject_id: S::Id,
    subject_relation: Option<S::Relations>,
    resource_id: R::Id,
    relation: R::Relations,
) -> (update: RelationshipUpdate) where S: Entity, R: Resource
    requires
        subject_relation matches Some(r) ==> r.has_name(),
        relation.has_name(),
    ensures
        update@ == relationship_update_of(
            operation,
            subject_reference_of(
                S::Id::wire(subject_id@),
                S::object_type_spec(),
                relation_name(subject_relation),
            ),
            object_reference_of::<R>(resource_id),
            relation.name_spec(),
            None,
        ),
        update@.relationship.unwrap().is_complete(),
        reads_back::<R>(
            update@.relationship.unwrap().resource.unwrap().object_id,
            Some(resource_id),
        ),
        reads_back::<S>(
            update@.relationship.unwrap().subject.unwrap().object.unwrap().object_id,
            Some(subject_id),
        ),
{
    let subject = subject_reference::<S>(subject_id, subject_relation);
    let resource = object_reference::<R>(resource_id);
    RelationshipUpdate {
        operation: operation.to_i32(),
        relationship: Some(
            Relationship {
                resource: Some(resource),
                relation: relation.name().to_owned(),
                subject: Some(subject),
                optional_caveat: None,
            },
        ),
    }
}

/// The update that applies `operation` to a relationship that holds only
/// where the caveat `C` does, with the attributes known so far.
pub fn caveated_relationship_update<S, R, C>(
    operation: Operation,
    subject_id: S::Id,
    subject_relation: Option<S::Relations>,
    resource_id: R::Id,
    relation: R::Relations,
    caveat_context: prost_types::Struct,
) -> (update: RelationshipUpdate) where S: Entity, R: Resource, C: Caveat
    requires
        subject_relation matches Some(r) ==> r.has_name(),
        relation.has_name(),
        C::has_name(),
    ensures
        update@ == relationship_update_of(
            operation,
            subject_reference_of(
                S::Id::wire(subject_id@),
                S::object_type_spec(),
                relation_name(subject_relation),
            ),
            object_reference_of::<R>(resource_id),
            relation.name_spec(),
            Some(
                ContextualizedCaveatView {
                    caveat_name: C::name_spec(),
                    context: Some(caveat_context),
                },
            ),
        ),
        update@.relationship.unwrap().is_complete(),
        update@.relationship.unwrap().optional_caveat matches Some(caveat)
            && caveat.caveat_name.len() > 0 && caveat.context is Some,
        reads_back::<R>(
            update@.relationship.unwrap().resource.unwrap().object_id,
            Some(resource_id),
        ),
        reads_back::<S>(
            update@.relationship.unwrap().subject.unwrap().object.unwrap().object_id,
            Some(subject_id),
        ),
{
    let subject = subject_reference::<S>(subject_id, subject_relation);
    let resource = object_reference::<R>(resource_id);
    RelationshipUpdate {
        operation: operation.to_i32(),
        relationship: Some(
            Relationship {
                resource: Some(resource),
                relation: relation.name().to_owned(),
                subject: Some(subject),
                optional_caveat: Some(
                    ContextualizedCaveat {
                        caveat_name: C::name().to_owned(),
                        context: Some(caveat_context),
                    },
                ),
            },
        ),
    }
}

} // verus!
