//! The request that asks for the resources of one type that a subject
//! has a permission on, and the reading of the stream that answers it.

use crate::entity::{id_values, Actor, EntityId, Permission, Resource};
use crate::error::{DecodeError, Error, UsageError};
use crate::spicedb::messages::{
    Consistency as WireConsistency, Cursor, SubjectReference,
};
use crate::spicedb::permission_service::{
    LookupPermissionship, LookupResourcesRequestView,
};
use crate::spicedb::wrappers::{Consistency, LookupResourcesResponse};
use crate::spicedb::permission_service as wire;
use vstd::prelude::*;

verus! {

/// What stands against dispatching the request, if anything does: the
/// permission is looked at first, then the subject.
pub open spec fn refusal(request: LookupResourcesRequestView) -> Option<UsageError> {
    if request.permission.len() == 0 {
        Some(UsageError::MissingPermission)
    } else if request.subject is None {
        Some(UsageError::MissingSubject)
    } else {
        None
    }
}

/// The caveat attributes that a found resource still depends on.
pub open spec fn missing_caveats(
    found: wire::LookupResourcesResponse,
) -> Seq<String> {
    match found.partial_caveat_info {
        Some(info) => info.missing_required_context@,
        None => Seq::empty(),
    }
}

/// What one element of the stream reads as, taken by the identifier it
/// holds. The transport's error is handed on; an identifier that does
/// not read as one of `R` is an error that holds it; after that, so is a
/// permissionship number that stands for nothing.
pub open spec fn element_id<R: Resource, T>(
    item: Result<wire::LookupResourcesResponse, T>,
) -> Result<<R::Id as View>::V, Error<T>> {
    match item {
        Err(e) => Err(Error::Transport(e)),
        Ok(found) => match R::Id::parse_wire(found.resource_object_id@) {
            None => Err(Error::InvalidId(found.resource_object_id)),
            Some(id) => match LookupPermissionship::of_number(found.permissionship) {
                None => Err(
                    Error::Decode(DecodeError::UnknownPermissionship(found.permissionship)),
                ),
                Some(_) => Ok(id),
            },
        },
    }
}

/// The identifiers that a stream holds, in its order; or the error of
/// the first element that does not read.
pub open spec fn collected<R: Resource, T>(
    items: Seq<Result<wire::LookupResourcesResponse, T>>,
) -> Result<Seq<<R::Id as View>::V>, Error<T>>
    decreases items.len(),
{
    if items.len() == 0 {
        Ok(Seq::empty())
    } else {
        match collected::<R, T>(items.drop_last()) {
            Err(e) => Err(e),
            Ok(ids) => match element_id::<R, T>(items.last()) {
                Err(e) => Err(e),
                Ok(id) => Ok(ids.push(id)),
            },
        }
    }
}

/// Accumulates a lookup of resources of type `R`. The request always
/// names that type.
pub struct LookupResourcesRequest<R> where R: Resource {
    request: wire::LookupResourcesRequest,
    _phantom: core::marker::PhantomData<R>,
}

impl<R> View for LookupResourcesRequest<R> where R: Resource {
    type V = LookupResourcesRequestView;

    closed spec fn view(&self) -> LookupResourcesRequestView {
        self.request@
    }
}

impl<R> LookupResourcesRequest<R> where R: Resource {
    #[verifier::type_invariant]
    spec fn names_resource_type(&self) -> bool {
        self.request.resource_object_type@ == R::object_type_spec()
    }

    /// A request that names the resource type and nothing else.
    pub fn new() -> (request: Self)
        ensures
            request@ == (LookupResourcesRequestView {
                consistency: None,
                resource_object_type: R::object_type_spec(),
                permission: Seq::empty(),
                subject: None,
                context: None,
                optional_limit: 0,
                optional_cursor: None,
            }),
    {
        LookupResourcesRequest {
            request: wire::LookupResourcesRequest {
                consistency: None,
                resource_object_type: R::object_type().to_owned(),
                permission: String::new(),
                subject: None,
                context: None,
                optional_limit: 0,
                optional_cursor: None,
            },
            _phantom: core::marker::PhantomData,
        }
    }

    /// Sets the permission that is asked about.
    pub fn permission(&mut self, permission: R::Permissions) -> (ret: &mut Self)
        ensures
            ret@ == (LookupResourcesRequestView {
                permission: permission.name_spec(),
                ..old(self)@
            }),
            ret@.permission.len() > 0,
            *final(self) == *final(ret),
    {
        proof {
            use_type_invariant(&*self);
        }
        self.request.permission = permission.name().to_owned();
        self
    }

    /// Sets the subject to the one that stands for the actor.
    pub fn actor<A>(&mut self, actor: &A) -> (ret: &mut Self) where A: Actor
        ensures
            ret@ == (LookupResourcesRequestView {
                subject: Some(actor.subject_spec()),
                ..old(self)@
            }),
            *final(self) == *final(ret),
    {
        proof {
            use_type_invariant(&*self);
        }
        self.request.subject = Some(actor.to_subject());
        self
    }

    /// Sets the subject that is asked about.
    pub fn subject(&mut self, subject: SubjectReference) -> (ret: &mut Self)
        ensures
            ret@ == (LookupResourcesRequestView { subject: Some(subject@), ..old(self)@ }),
            *final(self) == *final(ret),
    {
        proof {
            use_type_invariant(&*self);
        }
        self.request.subject = Some(subject);
        self
    }

    /// Sets the caveat attributes that are known to the caller.
    pub fn with_context(&mut self, context: prost_types::Struct) -> (ret: &mut Self)
        ensures
            ret@ == (LookupResourcesRequestView { context: Some(context), ..old(self)@ }),
            *final(self) == *final(ret),
    {
        proof {
            use_type_invariant(&*self);
        }
        self.request.context = Some(context);
        self
    }

    /// Sets how fresh the state has to be that the request is answered from.
    pub fn with_consistency(&mut self, consistency: Consistency) -> (ret: &mut Self)
        ensures
            ret@ == (LookupResourcesRequestView {
                consistency: Some(consistency@),
                ..old(self)@
            }),
            *final(self) == *final(ret),
    {
        proof {
            use_type_invariant(&*self);
        }
        self.request.consistency = Some(WireConsistency::from(consistency));
        self
    }

    /// Sets the number of results to answer with at most; 0 for no limit.
    pub fn with_limit(&mut self, limit: u32) -> (ret: &mut Self)
        ensures
            ret@ == (LookupResourcesRequestView { optional_limit: limit, ..old(self)@ }),
            *final(self) == *final(ret),
    {
        proof {
            use_type_invariant(&*self);
        }
        self.request.optional_limit = limit;
        self
    }

    /// Resumes after the result that the cursor came with.
    pub fn with_cursor(&mut self, cursor: Cursor) -> (ret: &mut Self)
        ensures
            ret@ == (LookupResourcesRequestView { optional_cursor: Some(cursor@), ..old(self)@ }),
            *final(self) == *final(ret),
    {
        proof {
            use_type_invariant(&*self);
        }
        self.request.optional_cursor = Some(cursor);
        self
    }

    /// Closes the builder for a caller that wants the identifiers only.
    /// The check and the message are those of `send_stream`; the stream
    /// that answers goes to `collect`, element by element, or to
    /// `collect_ids` as a whole.
    pub fn send_collect_ids(self) -> (r: Result<
        wire::LookupResourcesRequest,
        UsageError,
    >)
        ensures
            match r {
                Ok(message) => {
                    &&& refusal(self@) is None
                    &&& message@ == self@
                    &&& message@.resource_object_type == R::object_type_spec()
                },
                Err(e) => refusal(self@) == Some(e),
            },
    {
        self.send_stream()
    }

    /// Closes the builder. Where the permission or the subject was never
    /// set, nothing may be dispatched and the error says which; else the
    /// result is the message to dispatch, which names the resource type
    /// and holds what was set. Each element of the stream that answers
    /// goes to `decode`.
    pub fn send_stream(self) -> (r: Result<
        wire::LookupResourcesRequest,
        UsageError,
    >)
        ensures
            match r {
                Ok(message) => {
                    &&& refusal(self@) is None
                    &&& message@ == self@
                    &&& message@.resource_object_type == R::object_type_spec()
                },
                Err(e) => refusal(self@) == Some(e),
            },
    {
        proof {
            use_type_invariant(&self);
        }
        if self.request.permission.as_str().is_empty() {
            return Err(UsageError::MissingPermission);
        }
        if self.request.subject.is_none() {
            return Err(UsageError::MissingSubject);
        }
        Ok(self.request)
    }

    /// Reads one element of the stream. An element that does not read
    /// gives its own error and leaves the elements before and after it
    /// as they are.
    pub fn decode<T>(
        item: Result<wire::LookupResourcesResponse, T>,
    ) -> (r: Result<LookupResourcesResponse<R::Id>, Error<T>>)
        ensures
            match r {
                Err(e) => element_id::<R, T>(item) == Err::<<R::Id as View>::V, Error<T>>(e),
                Ok(resource) => {
                    &&& item matches Ok(found)
                    &&& element_id::<R, T>(item) == Ok::<<R::Id as View>::V, Error<T>>(
                        resource.id@,
                    )
                    &&& resource.looked_up_at == found.looked_up_at
                    &&& LookupPermissionship::of_number(found.permissionship) == Some(
                        resource.permissionship,
                    )
                    &&& resource.missing_caveats@ == missing_caveats(found)
                    &&& resource.after_result_cursor == found.after_result_cursor
                },
            },
    {
        let found = match item {
            Ok(found) => found,
            Err(e) => {
                return Err(Error::Transport(e));
            },
        };
        let id = match R::Id::from_wire(found.resource_object_id.as_str()) {
            Some(id) => id,
            None => {
                return Err(Error::InvalidId(found.resource_object_id));
            },
        };
        let permissionship = match LookupPermissionship::from_i32(found.permissionship) {
            Some(permissionship) => permissionship,
            None => {
                return Err(
                    Error::Decode(DecodeError::UnknownPermissionship(found.permissionship)),
                );
            },
        };
        let missing_caveats = match found.partial_caveat_info {
            Some(info) => info.missing_required_context,
            None => Vec::new(),
        };
        Ok(
            LookupResourcesResponse {
                id,
                looked_up_at: found.looked_up_at,
                permissionship,
                missing_caveats,
                after_result_cursor: found.after_result_cursor,
            },
        )
    }

    /// Reads one element of the stream and keeps its identifier. On an
    /// error nothing is kept.
    pub fn collect<T>(
        ids: &mut Vec<R::Id>,
        item: Result<wire::LookupResourcesResponse, T>,
    ) -> (r: Result<(), Error<T>>)
        ensures
            match r {
                Ok(_) => element_id::<R, T>(item) matches Ok(id) && id_values(final(ids)@)
                    == id_values(old(ids)@).push(id),
                Err(e) => element_id::<R, T>(item) == Err::<<R::Id as View>::V, Error<T>>(e)
                    && final(ids)@ == old(ids)@,
            },
    {
        match Self::decode(item) {
            Ok(resource) => {
                let ghost before = ids@;
                ids.push(resource.id);
                assert(id_values(ids@) =~= id_values(before).push(resource.id@));
                Ok(())
            },
            Err(e) => Err(e),
        }
    }

    /// Reads a whole stream and keeps the identifiers, in the stream's
    /// order. The first element that does not read ends the reading
    /// with its error.
    pub fn collect_ids<T>(
        items: Vec<Result<wire::LookupResourcesResponse, T>>,
    ) -> (r: Result<Vec<R::Id>, Error<T>>)
        ensures
            match r {
                Ok(ids) => collected::<R, T>(items@) == Ok::<
                    Seq<<R::Id as View>::V>,
                    Error<T>,
                >(id_values(ids@)),
                Err(e) => collected::<R, T>(items@) == Err::<Seq<<R::Id as View>::V>, Error<T>>(
                    e,
                ),
            },
    {
        let mut ids: Vec<R::Id> = Vec::new();
        let ghost all = items@;
        assert(id_values(ids@) =~= Seq::empty());
        for item in it: items.into_iter()
            invariant
                it.seq() == all,
                collected::<R, T>(all.take(it.index() as int)) == Ok::<
                    Seq<<R::Id as View>::V>,
                    Error<T>,
                >(id_values(ids@)),
        {
            let ghost read = all.take(it.index() as int);
            let ghost next = all.take(it.index() + 1);
            assert(next.drop_last() =~= read);
            assert(next.last() == item);
            match Self::collect(&mut ids, item) {
                Ok(_) => {},
                Err(e) => {
                    proof {
                        collected_prefix_error::<R, T>(all, it.index() + 1);
                    }
                    return Err(e);
                },
            }
        }
        assert(all.take(all.len() as int) =~= all);
        Ok(ids)
    }
}

/// A stream that fails within its first elements fails as a whole, with
/// the same error.
pub proof fn collected_prefix_error<R: Resource, T>(
    items: Seq<Result<wire::LookupResourcesResponse, T>>,
    n: int,
)
    requires
        0 <= n <= items.len(),
        collected::<R, T>(items.take(n)) is Err,
    ensures
        collected::<R, T>(items) == collected::<R, T>(items.take(n)),
    decreases items.len() - n,
{
    if n < items.len() {
        assert(items.take(n + 1).drop_last() =~= items.take(n));
        collected_prefix_error::<R, T>(items, n + 1);
    } else {
        assert(items.take(n) =~= items);
    }
}

/// Reading pages one after the other gives what reading them as one
/// stream gives: the identifiers of the first page followed by those of
/// the second, or the first error.
pub proof fn collected_pages<R: Resource, T>(
    first: Seq<Result<wire::LookupResourcesResponse, T>>,
    second: Seq<Result<wire::LookupResourcesResponse, T>>,
)
    ensures
        collected::<R, T>(first + second) == (match collected::<R, T>(first) {
            Err(e) => Err(e),
            Ok(before) => match collected::<R, T>(second) {
                Err(e) => Err(e),
                Ok(after) => Ok(before + after),
            },
        }),
    decreases second.len(),
{
    if second.len() == 0 {
        assert(first + second =~= first);
        if let Ok(before) = collected::<R, T>(first) {
            assert(before + Seq::<<R::Id as View>::V>::empty() =~= before);
        }
    } else {
        assert((first + second).drop_last() =~= first + second.drop_last());
        assert((first + second).last() == second.last());
        collected_pages::<R, T>(first, second.drop_last());
        if let Ok(before) = collected::<R, T>(first) {
            if let Ok(after) = collected::<R, T>(second.drop_last()) {
                if let Ok(id) = element_id::<R, T>(second.last()) {
                    assert((before + after).push(id) =~= before + after.push(id));
                }
            }
        }
    }
}

/// Where the pages of a result are cut, and in which order they are
/// read, makes no difference to the set of identifiers they hold.
pub proof fn collected_set_ignores_pages<R: Resource, T>(
    first: Seq<Result<wire::LookupResourcesResponse, T>>,
    second: Seq<Result<wire::LookupResourcesResponse, T>>,
)
    requires
        collected::<R, T>(first) is Ok,
        collected::<R, T>(second) is Ok,
    ensures
        collected::<R, T>(first + second) matches Ok(forth) && collected::<R, T>(
            second + first,
        ) matches Ok(back) && collected::<R, T>(first) matches Ok(before) && collected::<R, T>(
            second,
        ) matches Ok(after) && forth.to_set() == back.to_set() && forth.to_set()
            == before.to_set().union(after.to_set()),
{
    collected_pages::<R, T>(first, second);
    collected_pages::<R, T>(second, first);
    if let Ok(before) = collected::<R, T>(first) {
        if let Ok(after) = collected::<R, T>(second) {
            vstd::seq_lib::seq_to_set_distributes_over_add(before, after);
            vstd::seq_lib::seq_to_set_distributes_over_add(after, before);
            assert(before.to_set().union(after.to_set()) =~= after.to_set().union(
                before.to_set(),
            ));
        }
    }
}

} // verus!
