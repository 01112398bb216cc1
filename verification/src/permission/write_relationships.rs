//! The request that writes relationships, all or none.

use crate::entity::{Caveat, Entity, EntityId, Relation, Resource, WildCardId};
use crate::error::{DecodeError, Error, UsageError};
use crate::spicedb::helpers::{
    caveated_relationship_update, id_wire, object_reference_of, precondition, relation_name,
    relationship_filter_of, relationship_update, relationship_update_of, string_view,
    subject_reference_of, wildcard_relationship_update,
};
use crate::spicedb::messages::{
    option_view, vec_view_push, ContextualizedCaveat, ContextualizedCaveatView,
    Precondition, PreconditionView, RelationshipUpdate, RelationshipUpdateView, SubjectFilter,
    ZedToken,
};
use crate::spicedb::permission_service::{
    WriteRelationshipsRequestView, WriteRelationshipsResponse,
};
use crate::spicedb::precondition::Operation as PreconditionOperation;
use crate::spicedb::relationship_update::Operation;
use crate::spicedb::permission_service as wire;
use vstd::prelude::*;

verus! {

/// What the caller gets of a dispatched write: the token of the state
/// that holds the write; the transport's error where the call failed;
/// a decode error where the call succeeded and the response holds no
/// token.
pub open spec fn written_at<T>(reply: Result<WriteRelationshipsResponse, T>) -> Result<
    ZedToken,
    Error<T>,
> {
    match reply {
        Err(e) => Err(Error::Transport(e)),
        Ok(response) => match response.written_at {
            Some(token) => Ok(token),
            None => Err(Error::Decode(DecodeError::MissingZedToken)),
        },
    }
}

/// A caveat is complete when it has a name and a context.
pub open spec fn caveat_is_complete(caveat: ContextualizedCaveatView) -> bool {
    caveat.caveat_name.len() > 0 && caveat.context is Some
}

/// An update may be dispatched unless its relationship holds a caveat
/// that is not complete.
pub open spec fn may_be_sent(update: RelationshipUpdateView) -> bool {
    match update.relationship {
        Some(relationship) => match relationship.optional_caveat {
            Some(caveat) => caveat_is_complete(caveat),
            None => true,
        },
        None => true,
    }
}

/// What stands against dispatching the request, if anything does: an
/// update that may not be sent.
pub open spec fn refusal(request: WriteRelationshipsRequestView) -> Option<UsageError> {
    if forall|i: int|
        0 <= i < request.updates.len() ==> may_be_sent(#[trigger] request.updates[i]) {
        None
    } else {
        Some(UsageError::IncompleteCaveat)
    }
}

fn is_complete(caveat: &ContextualizedCaveat) -> (b: bool)
    ensures
        b == caveat_is_complete(caveat@),
{
    !caveat.caveat_name.as_str().is_empty() && caveat.context.is_some()
}

fn is_sendable(update: &RelationshipUpdate) -> (b: bool)
    ensures
        b == may_be_sent(update@),
{
    match &update.relationship {
        Some(relationship) => match &relationship.optional_caveat {
            Some(caveat) => is_complete(caveat),
            None => true,
        },
        None => true,
    }
}

/// Accumulates updates and the preconditions that they are written under.
pub struct WriteRelationshipsRequest {
    request: wire::WriteRelationshipsRequest,
}

impl View for WriteRelationshipsRequest {
    type V = WriteRelationshipsRequestView;

    closed spec fn view(&self) -> WriteRelationshipsRequestView {
        self.request@
    }
}

impl WriteRelationshipsRequest {
    /// A request with no update and no precondition.
    pub fn new() -> (request: Self)
        ensures
            request@.updates == Seq::<crate::spicedb::messages::RelationshipUpdateView>::empty(),
            request@.optional_preconditions == Seq::<PreconditionView>::empty(),
    {
        let request = WriteRelationshipsRequest {
            request: wire::WriteRelationshipsRequest {
                updates: Vec::new(),
                optional_preconditions: Vec::new(),
            },
        };
        assert(request@.updates =~= Seq::empty());
        assert(request@.optional_preconditions =~= Seq::empty());
        request
    }

    /// Adds a precondition as it goes over the wire.
    pub fn add_precondition_raw(&mut self, precondition: Precondition) -> (ret: &mut Self)
        ensures
            ret@ == (WriteRelationshipsRequestView {
                optional_preconditions: old(self)@.optional_preconditions.push(precondition@),
                ..old(self)@
            }),
            *final(self) == *final(ret),
    {
        let ghost before = self.request.optional_preconditions;
        self.request.optional_preconditions.push(precondition);
        proof {
            vec_view_push(before, self.request.optional_preconditions, precondition);
        }
        self
    }

    /// Adds an update as it goes over the wire.
    pub fn add_relationship_raw(&mut self, relationship: RelationshipUpdate) -> (ret: &mut Self)
        ensures
            ret@ == (WriteRelationshipsRequestView {
                updates: old(self)@.updates.push(relationship@),
                ..old(self)@
            }),
            *final(self) == *final(ret),
    {
        let ghost before = self.request.updates;
        self.request.updates.push(relationship);
        proof {
            vec_view_push(before, self.request.updates, relationship);
        }
        self
    }

    /// Adds a precondition on the relationships of resources of type `R`.
    pub fn add_precondition<R>(
        &mut self,
        operation: PreconditionOperation,
        resource_id: Option<R::Id>,
        resource_id_prefix: Option<String>,
        relation: Option<R::Relations>,
        subject_filter: Option<SubjectFilter>,
    ) -> (ret: &mut Self) where R: Resource
        requires
            relation matches Some(r) ==> r.has_name(),
        ensures
            ret@ == (WriteRelationshipsRequestView {
                optional_preconditions: old(self)@.optional_preconditions.push(
                    PreconditionView {
                        operation: operation.number(),
                        filter: Some(
                            relationship_filter_of(
                                R::object_type_spec(),
                                id_wire::<R>(resource_id),
                                string_view(resource_id_prefix),
                                relation_name(relation),
                                option_view(subject_filter),
                            ),
                        ),
                    },
                ),
                ..old(self)@
            }),
            *final(self) == *final(ret),
    {
        let condition = precondition::<R>(
            operation,
            resource_id,
            resource_id_prefix,
            relation,
            subject_filter,
        );
        self.add_precondition_raw(condition)
    }

    /// Adds an update of the relationship between every subject of type `S`
    /// and one resource.
    pub fn add_wildcard_relationship<S, R>(
        &mut self,
        operation: Operation,
        resource_id: R::Id,
        relation: R::Relations,
    ) -> (ret: &mut Self) where S: Entity, R: Resource
        requires
            relation.has_name(),
        ensures
            ret@ == (WriteRelationshipsRequestView {
                updates: old(self)@.updates.push(
                    relationship_update_of(
                        operation,
                        subject_reference_of(WildCardId::wire(()), S::object_type_spec(), None),
                        object_reference_of::<R>(resource_id),
                        relation.name_spec(),
                        None,
                    ),
                ),
                ..old(self)@
            }),
            may_be_sent(ret@.updates.last()),
            *final(self) == *final(ret),
    {
        let update = wildcard_relationship_update::<S, R>(operation, resource_id, relation);
        self.add_relationship_raw(update)
    }

    /// Adds an update of the relationship between one subject and one
    /// resource.
    pub fn add_relationship<S, R>(
        &mut self,
        operation: Operation,
        subject_id: S::Id,
        subject_relation: Option<S::Relations>,
        resource_id: R::Id,
        relation: R::Relations,
    ) -> (ret: &mut Self) where S: Entity, R: Resource
        requires
            subject_relation matches Some(r) ==> r.has_name(),
            relation.has_name(),
        ensures
            ret@ == (WriteRelationshipsRequestView {
                updates: old(self)@.updates.push(
                    relationship_update_of(
                        operation,
                        subject_reference_of(
                            S::Id::wire(subject_id@),
                            S::object_type_spec(),
                            relation_name(subject_relation),
                        ),
                        object_reference_of::<R>(resource_id),
                        relation.name_spec(),
                        None,
                    ),
                ),
                ..old(self)@
            }),
            may_be_sent(ret@.updates.last()),
            *final(self) == *final(ret),
    {
        let update = relationship_update::<S, R>(
            operation,
            subject_id,
            subject_relation,
            resource_id,
            relation,
        );
        self.add_relationship_raw(update)
    }

    /// Adds an update of a relationship that holds only where the caveat `C`
    /// does.
    pub fn add_caveated_relationship<S, R, C>(
        &mut self,
        operation: Operation,
        subject_id: S::Id,
        subject_relation: Option<S::Relations>,
        resource_id: R::Id,
        relation: R::Relations,
        caveat_context: prost_types::Struct,
    ) -> (ret: &mut Self) where S: Entity, R: Resource, C: Caveat
        requires
            subject_relation matches Some(r) ==> r.has_name(),
            relation.has_name(),
            C::has_name(),
        ensures
            ret@ == (WriteRelationshipsRequestView {
                updates: old(self)@.updates.push(
                    relationship_update_of(
                        operation,
                        subject_reference_of(
                            S::Id::wire(subject_id@),
                            S::object_type_spec(),
                            relation_name(subject_relation),
                        ),
                        object_reference_of::<R>(resource_id),
                        relation.name_spec(),
                        Some(
                            ContextualizedCaveatView {
                                caveat_name: C::name_spec(),
                                context: Some(caveat_context),
                            },
                        ),
                    ),
                ),
                ..old(self)@
            }),
            may_be_sent(ret@.updates.last()),
            *final(self) == *final(ret),
    {
        let update = caveated_relationship_update::<S, R, C>(
            operation,
            subject_id,
            subject_relation,
            resource_id,
            relation,
            caveat_context,
        );
        self.add_relationship_raw(update)
    }

    /// Closes the builder. Where an update holds a caveat without a name
    /// or without a context, nothing may be dispatched; else the result
    /// is the message to dispatch, which holds what was added, in the
    /// order in which it was added. A request without updates is a valid
    /// write that changes nothing.
    pub fn send(self) -> (r: Result<
        wire::WriteRelationshipsRequest,
        UsageError,
    >)
        ensures
            match r {
                Ok(message) => refusal(self@) is None && message@ == self@,
                Err(e) => refusal(self@) == Some(e),
            },
    {
        let mut i: usize = 0;
        while i < self.request.updates.len()
            invariant
                i <= self.request.updates.len(),
                forall|j: int| 0 <= j < i ==> may_be_sent(#[trigger] self@.updates[j]),
            decreases self.request.updates.len() - i,
        {
            if !is_sendable(&self.request.updates[i]) {
                assert(!may_be_sent(self@.updates[i as int]));
                return Err(UsageError::IncompleteCaveat);
            }
            i += 1;
        }
        Ok(self.request)
    }
}

/// What the caller gets of a dispatched write.
pub fn decode<T>(reply: Result<WriteRelationshipsResponse, T>) -> (r: Result<
    ZedToken,
    Error<T>,
>)
    ensures
        r == written_at(reply),
{
    match reply {
        Err(e) => Err(Error::Transport(e)),
        Ok(response) => match response.written_at {
            Some(token) => Ok(token),
            None => Err(Error::Decode(DecodeError::MissingZedToken)),
        },
    }
}

/// A write whose response holds no token ends in a decode error, which
/// is no transport error; and a decode error is never what a failed call
/// ends in.
pub proof fn missing_token_is_a_decode_error<T>(reply: Result<WriteRelationshipsResponse, T>)
    ensures
        reply matches Ok(response) && response.written_at is None ==> written_at(reply) == Err::<
            ZedToken,
            Error<T>,
        >(Error::Decode(DecodeError::MissingZedToken)),
        written_at(reply) matches Err(Error::Decode(_)) ==> reply is Ok,
        written_at(reply) matches Err(Error::Transport(_)) ==> reply is Err,
{
}

} // verus!
