//! The messages that requests and responses are made of.

use crate::spicedb::consistency::{Requirement, RequirementView};
use crate::spicedb::subject_filter::{RelationFilter, RelationFilterView};
use vstd::prelude::*;

verus! {

/// The structured attribute payload of a caveat. The library carries it
/// through unread, so nothing is known of what it holds.
#[verifier::external_type_specification]
#[verifier::external_body]
pub struct ExStruct(prost_types::Struct);

/// The model of an optional message.
pub open spec fn option_view<T: View>(o: Option<T>) -> Option<T::V> {
    match o {
        Some(t) => Some(t@),
        None => None,
    }
}

/// The model of a run of messages.
pub open spec fn seq_view<T: View>(s: Seq<T>) -> Seq<T::V> {
    s.map_values(|t: T| t@)
}

/// The model of a list of messages.
pub open spec fn vec_view<T: View>(v: Vec<T>) -> Seq<T::V> {
    seq_view(v@)
}

/// Appending to a list appends the item's model to the list's model.
pub proof fn vec_view_push<T: View>(before: Vec<T>, after: Vec<T>, item: T)
    requires
        after@ == before@.push(item),
    ensures
        vec_view(after) == vec_view(before).push(item@),
{
    assert(vec_view(after) =~= vec_view(before).push(item@));
}

/// An opaque marker of how fresh the service's state was at some call.
#[derive(Clone, Debug, PartialEq)]
pub struct ZedToken {
    pub token: String,
}

/// The model of `ZedToken`: what it holds, as mathematical values.
pub struct ZedTokenView {
    pub token: Seq<char>,
}

impl View for ZedToken {
    type V = ZedTokenView;

    open spec fn view(&self) -> ZedTokenView {
        ZedTokenView { token: self.token@ }
    }
}

/// An opaque marker of a position in a paged result.
#[derive(Clone, Debug, PartialEq)]
pub struct Cursor {
    pub token: String,
}

/// The model of `Cursor`: what it holds, as mathematical values.
pub struct CursorView {
    pub token: Seq<char>,
}

impl View for Cursor {
    type V = CursorView;

    open spec fn view(&self) -> CursorView {
        CursorView { token: self.token@ }
    }
}

/// An object: its type and its identifier.
#[derive(Clone, Debug, PartialEq)]
pub struct ObjectReference {
    pub object_type: String,
    pub object_id: String,
}

/// The model of `ObjectReference`: what it holds, as mathematical values.
pub struct ObjectReferenceView {
    pub object_type: Seq<char>,
    pub object_id: Seq<char>,
}

impl View for ObjectReference {
    type V = ObjectReferenceView;

    open spec fn view(&self) -> ObjectReferenceView {
        ObjectReferenceView { object_type: self.object_type@, object_id: self.object_id@ }
    }
}

/// A subject: an object and, where the subject is a set of objects, the
/// relation that spans the set. An empty relation stands for none.
#[derive(Clone, Debug, PartialEq)]
pub struct SubjectReference {
    pub object: Option<ObjectReference>,
    pub optional_relation: String,
}

/// The model of `SubjectReference`: what it holds, as mathematical values.
pub struct SubjectReferenceView {
    pub object: Option<ObjectReferenceView>,
    pub optional_relation: Seq<char>,
}

impl View for SubjectReference {
    type V = SubjectReferenceView;

    open spec fn view(&self) -> SubjectReferenceView {
        SubjectReferenceView {
            object: option_view(self.object),
            optional_relation: self.optional_relation@,
        }
    }
}

impl SubjectReferenceView {
    /// A subject reference is complete when it names an object of some type.
    pub open spec fn is_complete(self) -> bool {
        self.object matches Some(o) && o.object_type.len() > 0
    }
}

/// A caveat's name together with the attributes known when it is written.
#[derive(Clone, Debug, PartialEq)]
pub struct ContextualizedCaveat {
    pub caveat_name: String,
    pub context: Option<prost_types::Struct>,
}

/// The model of `ContextualizedCaveat`: what it holds, as mathematical values.
pub struct ContextualizedCaveatView {
    pub caveat_name: Seq<char>,
    pub context: Option<prost_types::Struct>,
}

impl View for ContextualizedCaveat {
    type V = ContextualizedCaveatView;

    open spec fn view(&self) -> ContextualizedCaveatView {
        ContextualizedCaveatView { caveat_name: self.caveat_name@, context: self.context }
    }
}

/// A relationship: the subject stands in the relation to the resource,
/// under a caveat if one is attached.
#[derive(Clone, Debug, PartialEq)]
pub struct Relationship {
    pub resource: Option<ObjectReference>,
    pub relation: String,
    pub subject: Option<SubjectReference>,
    pub optional_caveat: Option<ContextualizedCaveat>,
}

/// The model of `Relationship`: what it holds, as mathematical values.
pub struct RelationshipView {
    pub resource: Option<ObjectReferenceView>,
    pub relation: Seq<char>,
    pub subject: Option<SubjectReferenceView>,
    pub optional_caveat: Option<ContextualizedCaveatView>,
}

impl View for Relationship {
    type V = RelationshipView;

    open spec fn view(&self) -> RelationshipView {
        RelationshipView {
            resource: option_view(self.resource),
            relation: self.relation@,
            subject: option_view(self.subject),
            optional_caveat: option_view(self.optional_caveat),
        }
    }
}

impl RelationshipView {
    /// A relationship is complete when its resource and its subject each
    /// name an object of some type.
    pub open spec fn is_complete(self) -> bool {
        &&& self.resource matches Some(r) && r.object_type.len() > 0
        &&& self.subject matches Some(s) && s.is_complete()
    }
}

/// One change to the stored relationships. `operation` holds the wire
/// number of a `relationship_update::Operation`.
#[derive(Clone, Debug, PartialEq)]
pub struct RelationshipUpdate {
    pub operation: i32,
    pub relationship: Option<Relationship>,
}

/// The model of `RelationshipUpdate`: what it holds, as mathematical values.
pub struct RelationshipUpdateView {
    pub operation: i32,
    pub relationship: Option<RelationshipView>,
}

impl View for RelationshipUpdate {
    type V = RelationshipUpdateView;

    open spec fn view(&self) -> RelationshipUpdateView {
        RelationshipUpdateView {
            operation: self.operation,
            relationship: option_view(self.relationship),
        }
    }
}

/// A partial match on subjects. Every part but the type is optional: an
/// empty identifier and an absent relation match anything.
#[derive(Clone, Debug, PartialEq)]
pub struct SubjectFilter {
    pub subject_type: String,
    pub optional_subject_id: String,
    pub optional_relation: Option<RelationFilter>,
}

/// The model of `SubjectFilter`: what it holds, as mathematical values.
pub struct SubjectFilterView {
    pub subject_type: Seq<char>,
    pub optional_subject_id: Seq<char>,
    pub optional_relation: Option<RelationFilterView>,
}

impl View for SubjectFilter {
    type V = SubjectFilterView;

    open spec fn view(&self) -> SubjectFilterView {
        SubjectFilterView {
            subject_type: self.subject_type@,
            optional_subject_id: self.optional_subject_id@,
            optional_relation: option_view(self.optional_relation),
        }
    }
}

/// A partial match on relationships. Every part but the resource type is
/// optional: an empty string and an absent subject filter match anything.
#[derive(Clone, Debug, PartialEq)]
pub struct RelationshipFilter {
    pub resource_type: String,
    pub optional_resource_id: String,
    pub optional_resource_id_prefix: String,
    pub optional_relation: String,
    pub optional_subject_filter: Option<SubjectFilter>,
}

/// The model of `RelationshipFilter`: what it holds, as mathematical values.
pub struct RelationshipFilterView {
    pub resource_type: Seq<char>,
    pub optional_resource_id: Seq<char>,
    pub optional_resource_id_prefix: Seq<char>,
    pub optional_relation: Seq<char>,
    pub optional_subject_filter: Option<SubjectFilterView>,
}

impl View for RelationshipFilter {
    type V = RelationshipFilterView;

    open spec fn view(&self) -> RelationshipFilterView {
        RelationshipFilterView {
            resource_type: self.resource_type@,
            optional_resource_id: self.optional_resource_id@,
            optional_resource_id_prefix: self.optional_resource_id_prefix@,
            optional_relation: self.optional_relation@,
            optional_subject_filter: option_view(self.optional_subject_filter),
        }
    }
}

/// A condition on the stored relationships that a write is made under.
/// `operation` holds the wire number of a `precondition::Operation`.
#[derive(Clone, Debug, PartialEq)]
pub struct Precondition {
    pub operation: i32,
    pub filter: Option<RelationshipFilter>,
}

/// The model of `Precondition`: what it holds, as mathematical values.
pub struct PreconditionView {
    pub operation: i32,
    pub filter: Option<RelationshipFilterView>,
}

impl View for Precondition {
    type V = PreconditionView;

    open spec fn view(&self) -> PreconditionView {
        PreconditionView { operation: self.operation, filter: option_view(self.filter) }
    }
}

/// The names of the caveat attributes that a result still depends on.
#[derive(Clone, Debug, PartialEq)]
pub struct PartialCaveatInfo {
    pub missing_required_context: Vec<String>,
}

/// The model of `PartialCaveatInfo`: what it holds, as mathematical values.
pub struct PartialCaveatInfoView {
    pub missing_required_context: Seq<Seq<char>>,
}

impl View for PartialCaveatInfo {
    type V = PartialCaveatInfoView;

    open spec fn view(&self) -> PartialCaveatInfoView {
        PartialCaveatInfoView { missing_required_context: vec_view(self.missing_required_context) }
    }
}

/// How fresh the state that a read is answered from has to be, in the
/// form that goes over the wire.
#[derive(Clone, Debug, PartialEq)]
pub struct Consistency {
    pub requirement: Option<Requirement>,
}

/// The model of `Consistency`: what it holds, as mathematical values.
pub struct ConsistencyView {
    pub requirement: Option<RequirementView>,
}

impl View for Consistency {
    type V = ConsistencyView;

    open spec fn view(&self) -> ConsistencyView {
        ConsistencyView { requirement: option_view(self.requirement) }
    }
}

} // verus!
