//! The request that removes the relationships that a filter matches.

use crate::entity::{EntityId, Relation, Resource};
use crate::error::{DecodeError, Error};
use crate::spicedb::delete_relationships_response::DeletionProgress;
use crate::spicedb::helpers::{
    id_wire, precondition, relation_name, relationship_filter_of, string_view,
};
use crate::spicedb::messages::{
    option_view, vec_view, vec_view_push, Precondition, PreconditionView, RelationshipFilter,
    RelationshipFilterView, SubjectFilter, ZedToken,
};
use crate::spicedb::permission_service::{
    DeleteRelationshipsRequestView, DeleteRelationshipsResponse,
};
use crate::spicedb::precondition::Operation as PreconditionOperation;
use crate::spicedb::permission_service as wire;
use vstd::prelude::*;

verus! {

/// The request with another filter in place of its own.
pub open spec fn with_filter(
    request: DeleteRelationshipsRequestView,
    filter: RelationshipFilterView,
) -> DeleteRelationshipsRequestView {
    DeleteRelationshipsRequestView { relationship_filter: Some(filter), ..request }
}

/// What the caller gets of a dispatched deletion: the token of the state
/// after it and how far it got; the transport's error where the call
/// failed; a decode error where the response holds no token or, with a
/// token, a progress number that stands for nothing.
pub open spec fn deleted<T>(reply: Result<DeleteRelationshipsResponse, T>) -> Result<
    (ZedToken, DeletionProgress),
    Error<T>,
> {
    match reply {
        Err(e) => Err(Error::Transport(e)),
        Ok(response) => match response.deleted_at {
            None => Err(Error::Decode(DecodeError::MissingZedToken)),
            Some(token) => match DeletionProgress::of_number(response.deletion_progress) {
                None => Err(
                    Error::Decode(
                        DecodeError::UnknownDeletionProgress(response.deletion_progress),
                    ),
                ),
                Some(progress) => Ok((token, progress)),
            },
        },
    }
}

/// Accumulates a deletion among the relationships of resources of type
/// `R`. The filter always names that type.
pub struct DeleteRelationshipsRequest<R> where R: Resource {
    filter: RelationshipFilter,
    preconditions: Vec<Precondition>,
    limit: u32,
    allow_partial_deletions: bool,
    _phantom: core::marker::PhantomData<R>,
}

impl<R> View for DeleteRelationshipsRequest<R> where R: Resource {
    type V = DeleteRelationshipsRequestView;

    closed spec fn view(&self) -> DeleteRelationshipsRequestView {
        DeleteRelationshipsRequestView {
            relationship_filter: Some(self.filter@),
            optional_preconditions: vec_view(self.preconditions),
            optional_limit: self.limit,
            optional_allow_partial_deletions: self.allow_partial_deletions,
        }
    }
}

impl<R> DeleteRelationshipsRequest<R> where R: Resource {
    #[verifier::type_invariant]
    spec fn names_resource_type(&self) -> bool {
        self.filter.resource_type@ == R::object_type_spec()
    }

    /// A request that matches every relationship of every resource of
    /// type `R`, without limit and without preconditions.
    pub fn new() -> (request: Self)
        ensures
            request@ == (DeleteRelationshipsRequestView {
                relationship_filter: Some(
                    relationship_filter_of(R::object_type_spec(), None, None, None, None),
                ),
                optional_preconditions: Seq::empty(),
                optional_limit: 0,
                optional_allow_partial_deletions: false,
            }),
    {
        let request = DeleteRelationshipsRequest {
            filter: RelationshipFilter {
                resource_type: R::object_type().to_owned(),
                optional_resource_id: String::new(),
                optional_resource_id_prefix: String::new(),
                optional_relation: String::new(),
                optional_subject_filter: None,
            },
            preconditions: Vec::new(),
            limit: 0,
            allow_partial_deletions: false,
            _phantom: core::marker::PhantomData,
        };
        assert(request@.optional_preconditions =~= Seq::empty());
        request
    }

    /// Adds a precondition on the relationships of resources of type `R2`.
    pub fn add_precondition<R2>(
        &mut self,
        operation: PreconditionOperation,
        resource_id: Option<R2::Id>,
        resource_id_prefix: Option<String>,
        relation: Option<R2::Relations>,
        subject_filter: Option<SubjectFilter>,
    ) -> (ret: &mut Self) where R2: Resource
        requires
            relation matches Some(r) ==> r.has_name(),
        ensures
            ret@ == (DeleteRelationshipsRequestView {
                optional_preconditions: old(self)@.optional_preconditions.push(
                    PreconditionView {
                        operation: operation.number(),
                        filter: Some(
                            relationship_filter_of(
                                R2::object_type_spec(),
                                id_wire::<R2>(resource_id),
                                string_view(resource_id_prefix),
                                relation_name(relation),
                                option_view(subject_filter),
                            ),
                        ),
                    },
                ),
                ..old(self)@
            }),
            *final(self) == *final(ret),
    {
        proof {
            use_type_invariant(&*self);
        }
        let condition = precondition::<R2>(
            operation,
            resource_id,
            resource_id_prefix,
            relation,
            subject_filter,
        );
        let ghost before = self.preconditions;
        let mut preconditions = Vec::new();
        core::mem::swap(&mut preconditions, &mut self.preconditions);
        preconditions.push(condition);
        proof {
            vec_view_push(before, preconditions, condition);
        }
        self.preconditions = preconditions;
        self
    }

    /// Narrows the deletion to the resource with the given identifier.
    pub fn with_id(&mut self, resource_id: R::Id) -> (ret: &mut Self)
        ensures
            ret@ == with_filter(
                old(self)@,
                RelationshipFilterView {
                    optional_resource_id: R::Id::wire(resource_id@),
                    ..old(self)@.relationship_filter.unwrap()
                },
            ),
            *final(self) == *final(ret),
    {
        proof {
            use_type_invariant(&*self);
        }
        self.filter.optional_resource_id = resource_id.into_wire();
        self
    }

    /// Narrows the deletion to the resources whose identifier starts with
    /// the given prefix.
    pub fn with_id_prefix(&mut self, id_prefix: String) -> (ret: &mut Self)
        ensures
            ret@ == with_filter(
                old(self)@,
                RelationshipFilterView {
                    optional_resource_id_prefix: id_prefix@,
                    ..old(self)@.relationship_filter.unwrap()
                },
            ),
            *final(self) == *final(ret),
    {
        proof {
            use_type_invariant(&*self);
        }
        self.filter.optional_resource_id_prefix = id_prefix;
        self
    }

    /// Narrows the deletion to the given relation.
    pub fn with_relation(&mut self, relation: R::Relations) -> (ret: &mut Self)
        requires
            relation.has_name(),
        ensures
            ret@ == with_filter(
                old(self)@,
                RelationshipFilterView {
                    optional_relation: relation.name_spec(),
                    ..old(self)@.relationship_filter.unwrap()
                },
            ),
            *final(self) == *final(ret),
    {
        proof {
            use_type_invariant(&*self);
        }
        self.filter.optional_relation = relation.name().to_owned();
        self
    }

    /// Lets the service stop at the limit and report a partial deletion.
    pub fn allow_partial_deletions(&mut self) -> (ret: &mut Self)
        ensures
            ret@ == (DeleteRelationshipsRequestView {
                optional_allow_partial_deletions: true,
                ..old(self)@
            }),
            *final(self) == *final(ret),
    {
        proof {
            use_type_invariant(&*self);
        }
        self.allow_partial_deletions = true;
        self
    }

    /// Sets the number of relationships to remove at most; 0 for no limit.
    pub fn limit(&mut self, limit: u32) -> (ret: &mut Self)
        ensures
            ret@ == (DeleteRelationshipsRequestView { optional_limit: limit, ..old(self)@ }),
            *final(self) == *final(ret),
    {
        proof {
            use_type_invariant(&*self);
        }
        self.limit = limit;
        self
    }

    /// The same as `limit`.
    pub fn with_limit(&mut self, limit: u32) -> (ret: &mut Self)
        ensures
            ret@ == (DeleteRelationshipsRequestView { optional_limit: limit, ..old(self)@ }),
            *final(self) == *final(ret),
    {
        self.limit(limit)
    }

    /// Narrows the deletion to the subjects that the filter matches.
    pub fn with_subject_filter(&mut self, subject_filter: SubjectFilter) -> (ret: &mut Self)
        ensures
            ret@ == with_filter(
                old(self)@,
                RelationshipFilterView {
                    optional_subject_filter: Some(subject_filter@),
                    ..old(self)@.relationship_filter.unwrap()
                },
            ),
            *final(self) == *final(ret),
    {
        proof {
            use_type_invariant(&*self);
        }
        self.filter.optional_subject_filter = Some(subject_filter);
        self
    }

    /// Closes the builder and yields the message to dispatch. Its filter
    /// names the resource type, whatever else was set.
    pub fn send(self) -> (message: wire::DeleteRelationshipsRequest)
        ensures
            message@ == self@,
            message@.relationship_filter matches Some(filter) && filter.resource_type
                == R::object_type_spec(),
    {
        proof {
            use_type_invariant(&self);
        }
        wire::DeleteRelationshipsRequest {
            relationship_filter: Some(self.filter),
            optional_preconditions: self.preconditions,
            optional_limit: self.limit,
            optional_allow_partial_deletions: self.allow_partial_deletions,
        }
    }
}

/// What the caller gets of a dispatched deletion.
pub fn decode<T>(reply: Result<DeleteRelationshipsResponse, T>) -> (r: Result<
    (ZedToken, DeletionProgress),
    Error<T>,
>)
    ensures
        r == deleted(reply),
{
    let response = match reply {
        Ok(response) => response,
        Err(e) => {
            return Err(Error::Transport(e));
        },
    };
    let token = match response.deleted_at {
        Some(token) => token,
        None => {
            return Err(Error::Decode(DecodeError::MissingZedToken));
        },
    };
    match DeletionProgress::from_i32(response.deletion_progress) {
        Some(progress) => Ok((token, progress)),
        None => Err(
            Error::Decode(DecodeError::UnknownDeletionProgress(response.deletion_progress)),
        ),
    }
}

} // verus!
