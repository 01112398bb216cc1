//! The request that asks for the subjects of one type that have a
//! permission on a resource, and the reading of the stream that answers
//! it.

use crate::entity::{id_values, Entity, EntityId, Permission, Relation, Resource};
use crate::error::{Error, UsageError};
use crate::spicedb::helpers::{object_reference, object_reference_of, or_empty, relation_name};
use crate::spicedb::lookup_subjects_request::WildcardOption;
use crate::spicedb::messages::{
    Consistency as WireConsistency, ConsistencyView, ObjectReferenceView,
};
use crate::spicedb::permission_service::{LookupSubjectsRequestView, LookupSubjectsResponse};
use crate::spicedb::wrappers::Consistency;
use crate::spicedb::permission_service as wire;
use vstd::prelude::*;

verus! {

/// One call of a setter, as it changes the request.
pub enum Setting {
    /// How fresh the state has to be.
    Consistency(ConsistencyView),
    /// The resource and the name of the permission on it.
    Resource(ObjectReferenceView, Seq<char>),
    /// The name of the relation, or the empty string for none.
    SubjectRelation(Seq<char>),
    /// The caveat attributes that the caller knows.
    Context(prost_types::Struct),
    /// The number of concrete subjects to answer with at most.
    ConcreteLimit(u32),
    /// Whether wildcard subjects are reported.
    Wildcards(bool),
}

/// The wire number that says whether wildcards are reported.
pub open spec fn wildcard_number(wildcards: bool) -> i32 {
    if wildcards {
        WildcardOption::IncludeWildcards.number()
    } else {
        WildcardOption::ExcludeWildcards.number()
    }
}

/// The request after one setter was called on it.
pub open spec fn apply(
    request: LookupSubjectsRequestView,
    setting: Setting,
) -> LookupSubjectsRequestView {
    match setting {
        Setting::Consistency(consistency) => LookupSubjectsRequestView {
            consistency: Some(consistency),
            ..request
        },
        Setting::Resource(resource, permission) => LookupSubjectsRequestView {
            resource: Some(resource),
            permission,
            ..request
        },
        Setting::SubjectRelation(relation) => LookupSubjectsRequestView {
            optional_subject_relation: relation,
            ..request
        },
        Setting::Context(context) => LookupSubjectsRequestView {
            context: Some(context),
            ..request
        },
        Setting::ConcreteLimit(limit) => LookupSubjectsRequestView {
            optional_concrete_limit: limit,
            ..request
        },
        Setting::Wildcards(wildcards) => LookupSubjectsRequestView {
            wildcard_option: wildcard_number(wildcards),
            ..request
        },
    }
}

/// The request after the setters were called on it in the given order.
pub open spec fn apply_all(
    request: LookupSubjectsRequestView,
    settings: Seq<Setting>,
) -> LookupSubjectsRequestView
    decreases settings.len(),
{
    if settings.len() == 0 {
        request
    } else {
        apply(apply_all(request, settings.drop_last()), settings.last())
    }
}

/// What stands against dispatching the request, if anything does: the
/// resource is looked at first, then the permission.
pub open spec fn refusal(request: LookupSubjectsRequestView) -> Option<UsageError> {
    if request.resource is None {
        Some(UsageError::MissingResource)
    } else if request.permission.len() == 0 {
        Some(UsageError::MissingPermission)
    } else {
        None
    }
}

/// What stands against dispatching the request where the identifiers
/// are to be collected: that wildcards are reported, before all else.
pub open spec fn collect_refusal(request: LookupSubjectsRequestView) -> Option<UsageError> {
    if request.wildcard_option == WildcardOption::IncludeWildcards.number() {
        Some(UsageError::WildcardsNotCollectable)
    } else {
        refusal(request)
    }
}

/// What one element of the stream reads as: the element as it came, or
/// the transport's error.
pub open spec fn element<T>(item: Result<LookupSubjectsResponse, T>) -> Result<
    LookupSubjectsResponse,
    Error<T>,
> {
    match item {
        Ok(found) => Ok(found),
        Err(e) => Err(Error::Transport(e)),
    }
}

/// What one element of the stream reads as, taken by the identifier it
/// holds. An element without a subject holds none, which is no error;
/// an identifier that does not read as one of `S` is an error that
/// holds it.
pub open spec fn element_id<S: Entity, T>(item: Result<LookupSubjectsResponse, T>) -> Result<
    Option<<S::Id as View>::V>,
    Error<T>,
> {
    match item {
        Err(e) => Err(Error::Transport(e)),
        Ok(found) => match found.subject {
            None => Ok(None),
            Some(subject) => match S::Id::parse_wire(subject.subject_object_id@) {
                None => Err(Error::InvalidId(subject.subject_object_id)),
                Some(id) => Ok(Some(id)),
            },
        },
    }
}

/// The identifiers that a stream holds, in its order; or the error of
/// the first element that does not read.
pub open spec fn collected<S: Entity, T>(
    items: Seq<Result<LookupSubjectsResponse, T>>,
) -> Result<Seq<<S::Id as View>::V>, Error<T>>
    decreases items.len(),
{
    if items.len() == 0 {
        Ok(Seq::empty())
    } else {
        match collected::<S, T>(items.drop_last()) {
            Err(e) => Err(e),
            Ok(ids) => match element_id::<S, T>(items.last()) {
                Err(e) => Err(e),
                Ok(None) => Ok(ids),
                Ok(Some(id)) => Ok(ids.push(id)),
            },
        }
    }
}

/// Accumulates a lookup of subjects of type `S` on a resource of type
/// `R`. The request always names the subject type.
pub struct LookupSubjectsRequest<S, R> where S: Entity, R: Resource {
    request: wire::LookupSubjectsRequest,
    _phantom: core::marker::PhantomData<(S, R)>,
}

impl<S, R> View for LookupSubjectsRequest<S, R> where S: Entity, R: Resource {
    type V = LookupSubjectsRequestView;

    closed spec fn view(&self) -> LookupSubjectsRequestView {
        self.request@
    }
}

impl<S, R> LookupSubjectsRequest<S, R> where S: Entity, R: Resource {
    #[verifier::type_invariant]
    spec fn names_subject_type(&self) -> bool {
        self.request.subject_object_type@ == S::object_type_spec()
    }

    /// A request that names the subject type and nothing else. Whether
    /// wildcards are reported is left to the service.
    pub fn new() -> (request: Self)
        ensures
            request@ == (LookupSubjectsRequestView {
                consistency: None,
                resource: None,
                permission: Seq::empty(),
                subject_object_type: S::object_type_spec(),
                optional_subject_relation: Seq::empty(),
                context: None,
                optional_concrete_limit: 0,
                optional_cursor: None,
                wildcard_option: WildcardOption::Unspecified.number(),
            }),
    {
        LookupSubjectsRequest {
            request: wire::LookupSubjectsRequest {
                consistency: None,
                resource: None,
                permission: String::new(),
                subject_object_type: S::object_type().to_owned(),
                optional_subject_relation: String::new(),
                context: None,
                optional_concrete_limit: 0,
                optional_cursor: None,
                wildcard_option: WildcardOption::Unspecified.to_i32(),
            },
            _phantom: core::marker::PhantomData,
        }
    }

    /// Sets how fresh the state has to be that the request is answered from.
    pub fn with_consistency(&mut self, consistency: Consistency) -> (ret: &mut Self)
        ensures
            ret@ == apply(old(self)@, Setting::Consistency(consistency@)),
            *final(self) == *final(ret),
    {
        proof {
            use_type_invariant(&*self);
        }
        self.request.consistency = Some(WireConsistency::from(consistency));
        self
    }

    /// Sets the resource that the lookup is about and the permission on it.
    pub fn resource(&mut self, id: R::Id, permission: R::Permissions) -> (ret: &mut Self)
        ensures
            ret@ == apply(
                old(self)@,
                Setting::Resource(object_reference_of::<R>(id), permission.name_spec()),
            ),
            refusal(ret@) is None,
            *final(self) == *final(ret),
    {
        proof {
            use_type_invariant(&*self);
        }
        self.request.resource = Some(object_reference::<R>(id));
        self.request.permission = permission.name().to_owned();
        self
    }

    /// Narrows the lookup to the subjects that the relation spans, or takes
    /// the narrowing back.
    pub fn subject_relation(&mut self, relation: Option<S::Relations>) -> (ret: &mut Self)
        requires
            relation matches Some(r) ==> r.has_name(),
        ensures
            ret@ == apply(old(self)@, Setting::SubjectRelation(or_empty(relation_name(relation)))),
            *final(self) == *final(ret),
    {
        proof {
            use_type_invariant(&*self);
        }
        self.request.optional_subject_relation = match relation {
            Some(r) => r.name().to_owned(),
            None => String::new(),
        };
        self
    }

    /// Sets the caveat attributes that are known to the caller.
    pub fn with_context(&mut self, context: prost_types::Struct) -> (ret: &mut Self)
        ensures
            ret@ == apply(old(self)@, Setting::Context(context)),
            *final(self) == *final(ret),
    {
        proof {
            use_type_invariant(&*self);
        }
        self.request.context = Some(context);
        self
    }

    /// Sets the number of concrete subjects to answer with at most; 0 for no
    /// limit.
    pub fn with_concrete_limit(&mut self, limit: u32) -> (ret: &mut Self)
        ensures
            ret@ == apply(old(self)@, Setting::ConcreteLimit(limit)),
            *final(self) == *final(ret),
    {
        proof {
            use_type_invariant(&*self);
        }
        self.request.optional_concrete_limit = limit;
        self
    }

    /// Sets whether wildcard subjects are reported.
    pub fn wildcards_allowed(&mut self, wildcards: bool) -> (ret: &mut Self)
        ensures
            ret@ == apply(old(self)@, Setting::Wildcards(wildcards)),
            *final(self) == *final(ret),
    {
        proof {
            use_type_invariant(&*self);
        }
        if wildcards {
            self.request.wildcard_option = WildcardOption::IncludeWildcards.to_i32();
        } else {
            self.request.wildcard_option = WildcardOption::ExcludeWildcards.to_i32();
        }
        self
    }

    /// Closes the builder for a caller that wants the identifiers only.
    /// A request that reports wildcards is refused outright, since a
    /// wildcard has no identifier; nothing else is looked at before. Else
    /// the check and the message are those of `send_stream`. The stream
    /// that answers goes to `collect`, element by element, or to
    /// `collect_ids` as a whole.
    pub fn send_collect_ids(self) -> (r: Result<
        wire::LookupSubjectsRequest,
        UsageError,
    >)
        ensures
            match r {
                Ok(message) => {
                    &&& collect_refusal(self@) is None
                    &&& message@ == self@
                    &&& message@.subject_object_type == S::object_type_spec()
                },
                Err(e) => collect_refusal(self@) == Some(e),
            },
    {
        if self.request.wildcard_option == WildcardOption::IncludeWildcards.to_i32() {
            return Err(UsageError::WildcardsNotCollectable);
        }
        self.send_stream()
    }

    /// Closes the builder. Where the resource was never set, nothing may
    /// be dispatched; else the result is the message to dispatch, which
    /// names the subject type and holds what was set. Each element of the
    /// stream that answers goes to `decode`.
    pub fn send_stream(self) -> (r: Result<
        wire::LookupSubjectsRequest,
        UsageError,
    >)
        ensures
            match r {
                Ok(message) => {
                    &&& refusal(self@) is None
                    &&& message@ == self@
                    &&& message@.subject_object_type == S::object_type_spec()
                },
                Err(e) => refusal(self@) == Some(e),
            },
    {
        proof {
            use_type_invariant(&self);
        }
        if self.request.resource.is_none() {
            return Err(UsageError::MissingResource);
        }
        if self.request.permission.as_str().is_empty() {
            return Err(UsageError::MissingPermission);
        }
        Ok(self.request)
    }

    /// Reads one element of the stream.
    pub fn decode<T>(item: Result<LookupSubjectsResponse, T>) -> (r: Result<
        LookupSubjectsResponse,
        Error<T>,
    >)
        ensures
            r == element(item),
    {
        match item {
            Ok(found) => Ok(found),
            Err(e) => Err(Error::Transport(e)),
        }
    }

    /// Reads one element of the stream and keeps its identifier, if it
    /// holds one. On an error nothing is kept.
    pub fn collect<T>(ids: &mut Vec<S::Id>, item: Result<LookupSubjectsResponse, T>) -> (r: Result<
        (),
        Error<T>,
    >)
        ensures
            match r {
                Ok(_) => match element_id::<S, T>(item) {
                    Ok(Some(id)) => id_values(final(ids)@) == id_values(old(ids)@).push(id),
                    Ok(None) => final(ids)@ == old(ids)@,
                    Err(_) => false,
                },
                Err(e) => element_id::<S, T>(item) == Err::<Option<<S::Id as View>::V>, Error<T>>(
                    e,
                ) && final(ids)@ == old(ids)@,
            },
    {
        let found = match item {
            Ok(found) => found,
            Err(e) => {
                return Err(Error::Transport(e));
            },
        };
        let subject = match found.subject {
            Some(subject) => subject,
            None => {
                return Ok(());
            },
        };
        match S::Id::from_wire(subject.subject_object_id.as_str()) {
            Some(id) => {
                let ghost before = ids@;
                ids.push(id);
                assert(id_values(ids@) =~= id_values(before).push(id@));
                Ok(())
            },
            None => Err(Error::InvalidId(subject.subject_object_id)),
        }
    }

    /// Reads a whole stream and keeps the identifiers, in the stream's
    /// order. The first element that does not read ends the reading
    /// with its error.
    pub fn collect_ids<T>(items: Vec<Result<LookupSubjectsResponse, T>>) -> (r: Result<
        Vec<S::Id>,
        Error<T>,
    >)
        ensures
            match r {
                Ok(ids) => collected::<S, T>(items@) == Ok::<
                    Seq<<S::Id as View>::V>,
                    Error<T>,
                >(id_values(ids@)),
                Err(e) => collected::<S, T>(items@) == Err::<Seq<<S::Id as View>::V>, Error<T>>(
                    e,
                ),
            },
    {
        let mut ids: Vec<S::Id> = Vec::new();
        let ghost all = items@;
        assert(id_values(ids@) =~= Seq::empty());
        for item in it: items.into_iter()
            invariant
                it.seq() == all,
                collected::<S, T>(all.take(it.index() as int)) == Ok::<
                    Seq<<S::Id as View>::V>,
                    Error<T>,
                >(id_values(ids@)),
        {
            let ghost read = all.take(it.index() as int);
            let ghost next = all.take(it.index() + 1);
            assert(next.drop_last() =~= read);
            assert(next.last() == item);
            match Self::collect(&mut ids, item) {
                Ok(_) => {},
                Err(e) => {
                    proof {
                        collected_prefix_error::<S, T>(all, it.index() + 1);
                    }
                    return Err(e);
                },
            }
        }
        assert(all.take(all.len() as int) =~= all);
        Ok(ids)
    }
}

/// A stream that fails within its first elements fails as a whole, with
/// the same error.
pub proof fn collected_prefix_error<S: Entity, T>(
    items: Seq<Result<LookupSubjectsResponse, T>>,
    n: int,
)
    requires
        0 <= n <= items.len(),
        collected::<S, T>(items.take(n)) is Err,
    ensures
        collected::<S, T>(items) == collected::<S, T>(items.take(n)),
    decreases items.len() - n,
{
    if n < items.len() {
        assert(items.take(n + 1).drop_last() =~= items.take(n));
        collected_prefix_error::<S, T>(items, n + 1);
    } else {
        assert(items.take(n) =~= items);
    }
}

/// Reading pages one after the other gives what reading them as one
/// stream gives: the identifiers of the first page followed by those of
/// the second, or the first error.
pub proof fn collected_pages<S: Entity, T>(
    first: Seq<Result<LookupSubjectsResponse, T>>,
    second: Seq<Result<LookupSubjectsResponse, T>>,
)
    ensures
        collected::<S, T>(first + second) == (match collected::<S, T>(first) {
            Err(e) => Err(e),
            Ok(before) => match collected::<S, T>(second) {
                Err(e) => Err(e),
                Ok(after) => Ok(before + after),
            },
        }),
    decreases second.len(),
{
    if second.len() == 0 {
        assert(first + second =~= first);
        if let Ok(before) = collected::<S, T>(first) {
            assert(before + Seq::<<S::Id as View>::V>::empty() =~= before);
        }
    } else {
        assert((first + second).drop_last() =~= first + second.drop_last());
        assert((first + second).last() == second.last());
        collected_pages::<S, T>(first, second.drop_last());
        if let Ok(before) = collected::<S, T>(first) {
            if let Ok(after) = collected::<S, T>(second.drop_last()) {
                if let Ok(Some(id)) = element_id::<S, T>(second.last()) {
                    assert((before + after).push(id) =~= before + after.push(id));
                }
            }
        }
    }
}

/// Where the pages of a result are cut, and in which order they are
/// read, makes no difference to the set of identifiers they hold.
pub proof fn collected_set_ignores_pages<S: Entity, T>(
    first: Seq<Result<LookupSubjectsResponse, T>>,
    second: Seq<Result<LookupSubjectsResponse, T>>,
)
    requires
        collected::<S, T>(first) is Ok,
        collected::<S, T>(second) is Ok,
    ensures
        collected::<S, T>(first + second) matches Ok(forth) && collected::<S, T>(
            second + first,
        ) matches Ok(back) && collected::<S, T>(first) matches Ok(before) && collected::<S, T>(
            second,
        ) matches Ok(after) && forth.to_set() == back.to_set() && forth.to_set()
            == before.to_set().union(after.to_set()),
{
    collected_pages::<S, T>(first, second);
    collected_pages::<S, T>(second, first);
    if let Ok(before) = collected::<S, T>(first) {
        if let Ok(after) = collected::<S, T>(second) {
            vstd::seq_lib::seq_to_set_distributes_over_add(before, after);
            vstd::seq_lib::seq_to_set_distributes_over_add(after, before);
            assert(before.to_set().union(after.to_set()) =~= after.to_set().union(
                before.to_set(),
            ));
        }
    }
}

/// Whether no call of the run turns the reporting of wildcards off.
pub open spec fn keeps_wildcards(settings: Seq<Setting>) -> bool {
    forall|i: int|
        0 <= i < settings.len() ==> !(#[trigger] settings[i] matches Setting::Wildcards(w) && !w)
}

/// Once wildcards are reported, and whatever else is set after that
/// short of turning them off again, a request that is closed for the
/// collecting of identifiers is refused, and for that reason.
pub proof fn wildcards_are_never_collected(
    request: LookupSubjectsRequestView,
    settings: Seq<Setting>,
)
    requires
        keeps_wildcards(settings),
    ensures
        collect_refusal(apply_all(apply(request, Setting::Wildcards(true)), settings)) == Some(
            UsageError::WildcardsNotCollectable,
        ),
    decreases settings.len(),
{
    if settings.len() > 0 {
        let before = settings.drop_last();
        assert forall|i: int| 0 <= i < before.len() implies !(#[trigger] before[i] matches Setting::Wildcards(
            w,
        ) && !w) by {
            assert(before[i] == settings[i]);
        }
        wildcards_are_never_collected(request, before);
        assert(settings.last() == settings[settings.len() - 1]);
    }
}

} // verus!
