//! The request that asks whether a subject has a permission on a resource.

use crate::entity::{Actor, Permission, Resource};
use crate::error::{DecodeError, Error, UsageError};
use crate::spicedb::check_permission_response::Permissionship;
use crate::spicedb::messages::{
    Consistency as WireConsistency, ConsistencyView, ObjectReference, ObjectReferenceView,
    SubjectReference, SubjectReferenceView,
};
use crate::spicedb::permission_service::{
    CheckPermissionRequestView, CheckPermissionResponse,
};
use crate::spicedb::wrappers::Consistency;
use crate::spicedb::permission_service as wire;
use vstd::prelude::*;

verus! {

/// One call of a setter, as it changes the request.
pub enum Setting {
    /// The name of the permission.
    Permission(Seq<char>),
    /// That the service is to trace its answer.
    Tracing,
    /// The caveat attributes that the caller knows.
    Context(prost_types::Struct),
    /// The subject, given as such or by an actor.
    Subject(SubjectReferenceView),
    /// The resource.
    Resource(ObjectReferenceView),
    /// How fresh the state has to be.
    Consistency(ConsistencyView),
}

/// The request in which nothing is set.
pub open spec fn unset() -> CheckPermissionRequestView {
    CheckPermissionRequestView {
        consistency: None,
        resource: None,
        permission: Seq::empty(),
        subject: None,
        context: None,
        with_tracing: false,
    }
}

/// The request after one setter was called on it.
pub open spec fn apply(
    request: CheckPermissionRequestView,
    setting: Setting,
) -> CheckPermissionRequestView {
    match setting {
        Setting::Permission(name) => CheckPermissionRequestView { permission: name, ..request },
        Setting::Tracing => CheckPermissionRequestView { with_tracing: true, ..request },
        Setting::Context(context) => CheckPermissionRequestView {
            context: Some(context),
            ..request
        },
        Setting::Subject(subject) => CheckPermissionRequestView {
            subject: Some(subject),
            ..request
        },
        Setting::Resource(resource) => CheckPermissionRequestView {
            resource: Some(resource),
            ..request
        },
        Setting::Consistency(consistency) => CheckPermissionRequestView {
            consistency: Some(consistency),
            ..request
        },
    }
}

/// The request after the setters were called on it in the given order.
pub open spec fn apply_all(
    request: CheckPermissionRequestView,
    settings: Seq<Setting>,
) -> CheckPermissionRequestView
    decreases settings.len(),
{
    if settings.len() == 0 {
        request
    } else {
        apply(apply_all(request, settings.drop_last()), settings.last())
    }
}

/// What stands against dispatching the request, if anything does: the
/// resource is looked at first, then the permission, then the subject.
pub open spec fn refusal(request: CheckPermissionRequestView) -> Option<UsageError> {
    if request.resource is None {
        Some(UsageError::MissingResource)
    } else if request.permission.len() == 0 {
        Some(UsageError::MissingPermission)
    } else if request.subject is None {
        Some(UsageError::MissingSubject)
    } else {
        None
    }
}

/// Whether a response says that the subject has the permission. Any
/// other answer, known or not, says that it does not.
pub open spec fn grants(response: CheckPermissionResponse) -> bool {
    response.permissionship == Permissionship::HasPermission.number()
}

/// The raw result of a call: the response as it came, or the
/// transport's error.
pub open spec fn raw_result<T>(reply: Result<CheckPermissionResponse, T>) -> Result<
    CheckPermissionResponse,
    Error<T>,
> {
    match reply {
        Ok(response) => Ok(response),
        Err(e) => Err(Error::Transport(e)),
    }
}

/// The result of a call as a yes or no.
pub open spec fn bool_result<T>(reply: Result<CheckPermissionResponse, T>) -> Result<
    bool,
    Error<T>,
> {
    match reply {
        Ok(response) => Ok(grants(response)),
        Err(e) => Err(Error::Transport(e)),
    }
}

/// Accumulates a permission check on a resource of type `R`.
pub struct CheckPermissionRequest<R> {
    request: wire::CheckPermissionRequest,
    _phantom: core::marker::PhantomData<R>,
}

impl<R> View for CheckPermissionRequest<R> {
    type V = CheckPermissionRequestView;

    closed spec fn view(&self) -> CheckPermissionRequestView {
        self.request@
    }
}

impl<R> CheckPermissionRequest<R> where R: Resource {
    /// A request in which nothing is set yet.
    pub fn new() -> (request: Self)
        ensures
            request@ == unset(),
    {
        CheckPermissionRequest {
            request: wire::CheckPermissionRequest {
                consistency: None,
                resource: None,
                permission: String::new(),
                subject: None,
                context: None,
                with_tracing: false,
            },
            _phantom: core::marker::PhantomData,
        }
    }

    /// Sets the permission that is asked about.
    pub fn permission(&mut self, permission: R::Permissions) -> (ret: &mut Self)
        ensures
            ret@ == apply(old(self)@, Setting::Permission(permission.name_spec())),
            ret@.permission.len() > 0,
            *final(self) == *final(ret),
    {
        self.request.permission = permission.name().to_owned();
        self
    }

    /// Asks the service to trace how it comes to its answer.
    pub fn enable_tracing(&mut self) -> (ret: &mut Self)
        ensures
            ret@ == apply(old(self)@, Setting::Tracing),
            *final(self) == *final(ret),
    {
        self.request.with_tracing = true;
        self
    }

    /// Sets the caveat attributes that are known to the caller.
    pub fn context(&mut self, context: prost_types::Struct) -> (ret: &mut Self)
        ensures
            ret@ == apply(old(self)@, Setting::Context(context)),
            *final(self) == *final(ret),
    {
        self.request.context = Some(context);
        self
    }

    /// Sets the subject that is asked about.
    pub fn subject(&mut self, subject: SubjectReference) -> (ret: &mut Self)
        ensures
            ret@ == apply(old(self)@, Setting::Subject(subject@)),
            *final(self) == *final(ret),
    {
        self.request.subject = Some(subject);
        self
    }

    /// Sets the subject to the one that stands for the actor.
    pub fn actor<A>(&mut self, actor: &A) -> (ret: &mut Self) where A: Actor
        ensures
            ret@ == apply(old(self)@, Setting::Subject(actor.subject_spec())),
            *final(self) == *final(ret),
    {
        self.request.subject = Some(actor.to_subject());
        self
    }

    /// Sets the resource that is asked about.
    pub fn resource(&mut self, resource: ObjectReference) -> (ret: &mut Self)
        ensures
            ret@ == apply(old(self)@, Setting::Resource(resource@)),
            *final(self) == *final(ret),
    {
        self.request.resource = Some(resource);
        self
    }

    /// Sets how fresh the state has to be that the check is answered from.
    pub fn consistency(&mut self, consistency: Consistency) -> (ret: &mut Self)
        ensures
            ret@ == apply(old(self)@, Setting::Consistency(consistency@)),
            *final(self) == *final(ret),
    {
        self.request.consistency = Some(WireConsistency::from(consistency));
        self
    }

    /// Closes the builder. Where a required field was never set, nothing
    /// may be dispatched and the error says which field; else the result
    /// is the message to dispatch, which holds what was set.
    pub fn send(self) -> (r: Result<
        wire::CheckPermissionRequest,
        UsageError,
    >)
        ensures
            match r {
                Ok(message) => refusal(self@) is None && message@ == self@,
                Err(e) => refusal(self@) == Some(e),
            },
    {
        if self.request.resource.is_none() {
            return Err(UsageError::MissingResource);
        }
        if self.request.permission.as_str().is_empty() {
            return Err(UsageError::MissingPermission);
        }
        if self.request.subject.is_none() {
            return Err(UsageError::MissingSubject);
        }
        Ok(self.request)
    }
}

/// What the caller gets of a dispatched request, where the response
/// is wanted as it came.
pub fn decode<T>(reply: Result<CheckPermissionResponse, T>) -> (r: Result<
    CheckPermissionResponse,
    Error<T>,
>)
    ensures
        r == raw_result(reply),
{
    match reply {
        Ok(response) => Ok(response),
        Err(e) => Err(Error::Transport(e)),
    }
}

/// What the caller gets of a dispatched request, where a yes or no
/// is wanted.
pub fn decode_bool<T>(reply: Result<CheckPermissionResponse, T>) -> (r: Result<bool, Error<T>>)
    ensures
        r == bool_result(reply),
{
    match reply {
        Ok(response) => Ok(has_permission(&response)),
        Err(e) => Err(Error::Transport(e)),
    }
}

/// Whether a response says that the subject has the permission.
pub fn has_permission(response: &CheckPermissionResponse) -> (b: bool)
    ensures
        b == grants(*response),
{
    response.permissionship == Permissionship::HasPermission.to_i32()
}

/// What a response says, where its number stands for an answer.
pub fn permissionship(response: &CheckPermissionResponse) -> (r: Result<
    Permissionship,
    DecodeError,
>)
    ensures
        r == (match Permissionship::of_number(response.permissionship) {
            Some(p) => Ok::<Permissionship, DecodeError>(p),
            None => Err(DecodeError::UnknownPermissionship(response.permissionship)),
        }),
{
    match Permissionship::from_i32(response.permissionship) {
        Some(p) => Ok(p),
        None => Err(DecodeError::UnknownPermissionship(response.permissionship)),
    }
}

/// Whether a call that sets the resource is among the calls.
pub open spec fn sets_resource(settings: Seq<Setting>) -> bool {
    exists|i: int| 0 <= i < settings.len() && #[trigger] settings[i] is Resource
}

/// Whether a call that sets the permission is among the calls.
pub open spec fn sets_permission(settings: Seq<Setting>) -> bool {
    exists|i: int| 0 <= i < settings.len() && #[trigger] settings[i] is Permission
}

/// Whether a call that sets the subject is among the calls.
pub open spec fn sets_subject(settings: Seq<Setting>) -> bool {
    exists|i: int| 0 <= i < settings.len() && #[trigger] settings[i] is Subject
}

/// Permission names are never empty.
pub open spec fn names_are_set(settings: Seq<Setting>) -> bool {
    forall|i: int|
        0 <= i < settings.len() ==> (#[trigger] settings[i] matches Setting::Permission(name)
            ==> name.len() > 0)
}

/// What is set after a run of setter calls is what some call of the run set.
proof fn fields_after(settings: Seq<Setting>)
    requires
        names_are_set(settings),
    ensures
        apply_all(unset(), settings).resource is Some <==> sets_resource(settings),
        apply_all(unset(), settings).permission.len() > 0 <==> sets_permission(settings),
        apply_all(unset(), settings).subject is Some <==> sets_subject(settings),
    decreases settings.len(),
{
    if settings.len() > 0 {
        let before = settings.drop_last();
        let last = settings.len() - 1;
        fields_after(before);
        if sets_resource(before) {
            let i = choose|i: int| 0 <= i < before.len() && #[trigger] before[i] is Resource;
            assert(settings[i] is Resource);
        }
        if sets_permission(before) {
            let i = choose|i: int| 0 <= i < before.len() && #[trigger] before[i] is Permission;
            assert(settings[i] is Permission);
        }
        if sets_subject(before) {
            let i = choose|i: int| 0 <= i < before.len() && #[trigger] before[i] is Subject;
            assert(settings[i] is Subject);
        }
        if sets_resource(settings) {
            let i = choose|i: int| 0 <= i < settings.len() && #[trigger] settings[i] is Resource;
            if i < last {
                assert(before[i] is Resource);
            }
        }
        if sets_permission(settings) {
            let i = choose|i: int| 0 <= i < settings.len() && #[trigger] settings[i] is Permission;
            if i < last {
                assert(before[i] is Permission);
            }
        }
        if sets_subject(settings) {
            let i = choose|i: int| 0 <= i < settings.len() && #[trigger] settings[i] is Subject;
            if i < last {
                assert(before[i] is Subject);
            }
        }
        assert(settings[last] == settings.last());
    }
}

/// Whatever setters are called on a new request, and in whatever order:
/// the request is refused if and only if the resource, the permission or
/// the subject was never set.
pub proof fn refused_iff_never_set(settings: Seq<Setting>)
    requires
        names_are_set(settings),
    ensures
        refusal(apply_all(unset(), settings)) is Some <==> !sets_resource(settings)
            || !sets_permission(settings) || !sets_subject(settings),
{
    fields_after(settings);
}

} // verus!
