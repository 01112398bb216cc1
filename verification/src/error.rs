//! What can go wrong with a request, in kinds that a caller can tell
//! apart: misuse of a builder is found before anything is dispatched, a
//! failed call is handed on as the transport reported it, and a response
//! that cannot be trusted is neither of the two.

use vstd::prelude::*;
use vstd::std_specs::convert::FromSpecImpl;
use vstd::string::StringExecFns;

verus! {

/// A request that must not be dispatched as it stands.
#[derive(Clone, Copy, Debug, PartialEq, Eq)]
pub enum UsageError {
    /// No resource was set.
    MissingResource,
    /// No permission was set.
    MissingPermission,
    /// No subject was set.
    MissingSubject,
    /// No relationship filter was set, or the one set names no resource type.
    MissingResourceType,
    /// A relationship holds a caveat without a name or without a context.
    IncompleteCaveat,
    /// Identifiers were to be collected from a lookup that reports
    /// wildcards, which have no identifier.
    WildcardsNotCollectable,
}

/// A response that breaks what the protocol guarantees.
#[derive(Clone, Copy, Debug, PartialEq, Eq)]
pub enum DecodeError {
    /// The response holds no ZedToken.
    MissingZedToken,
    /// A subject reference names no object.
    MissingObject,
    /// A relationship has no resource.
    MissingResource,
    /// A relationship has no subject.
    MissingSubject,
    /// The deletion progress is a number that stands for no value.
    UnknownDeletionProgress(i32),
    /// The permissionship is a number that stands for no value.
    UnknownPermissionship(i32),
}

/// Why a request gave no result. `T` is the transport's own error, which
/// is handed on unchanged.
#[derive(Clone, Debug, PartialEq)]
pub enum Error<T> {
    /// The request was refused before it was dispatched.
    Usage(UsageError),
    /// The call itself failed.
    Transport(T),
    /// The call succeeded and its response cannot be trusted.
    Decode(DecodeError),
    /// The response holds this identifier, which does not read as an
    /// identifier of the declared type.
    InvalidId(String),
}

/// The kinds of failure.
#[derive(Clone, Copy, Debug, PartialEq, Eq)]
pub enum ErrorKind {
    /// A required field was never set.
    Validation,
    /// Two settings of a request exclude each other.
    IllegalCombination,
    /// The remote call failed.
    Transport,
    /// The response breaks the protocol.
    Protocol,
    /// An identifier in the response does not read as one.
    IdentifierConversion,
}

/// The status that a failure found by this library is reported under
/// where failures are reported as statuses of the transport.
#[derive(Clone, Copy, Debug, PartialEq, Eq)]
pub enum StatusCode {
    /// The caller's request is at fault.
    InvalidArgument,
    /// The service's response is at fault.
    Internal,
}

impl ErrorKind {
    /// The status of a kind of failure; none for the transport's own
    /// failures, which bring their status with them.
    pub open spec fn status_spec(self) -> Option<StatusCode> {
        match self {
            ErrorKind::Validation => Some(StatusCode::InvalidArgument),
            ErrorKind::IllegalCombination => Some(StatusCode::InvalidArgument),
            ErrorKind::Transport => None,
            ErrorKind::Protocol => Some(StatusCode::Internal),
            ErrorKind::IdentifierConversion => Some(StatusCode::Internal),
        }
    }

    /// Hands out the status of the kind of failure.
    pub fn status(&self) -> (code: Option<StatusCode>)
        ensures
            code == self.status_spec(),
    {
        match self {
            ErrorKind::Validation => Some(StatusCode::InvalidArgument),
            ErrorKind::IllegalCombination => Some(StatusCode::InvalidArgument),
            ErrorKind::Transport => None,
            ErrorKind::Protocol => Some(StatusCode::Internal),
            ErrorKind::IdentifierConversion => Some(StatusCode::Internal),
        }
    }
}

impl UsageError {
    /// The kind of the failure.
    pub open spec fn kind_spec(self) -> ErrorKind {
        match self {
            UsageError::WildcardsNotCollectable => ErrorKind::IllegalCombination,
            _ => ErrorKind::Validation,
        }
    }

    /// Hands out the kind of the failure.
    pub fn kind(&self) -> (k: ErrorKind)
        ensures
            k == self.kind_spec(),
    {
        match self {
            UsageError::WildcardsNotCollectable => ErrorKind::IllegalCombination,
            _ => ErrorKind::Validation,
        }
    }

    /// The text that describes the error.
    pub open spec fn message_spec(self) -> Seq<char> {
        match self {
            UsageError::MissingResource => "resource is required"@,
            UsageError::MissingPermission => "permission is required"@,
            UsageError::MissingSubject => "subject is required"@,
            UsageError::MissingResourceType => "resource type is required"@,
            UsageError::IncompleteCaveat => "caveat name and context are both required"@,
            UsageError::WildcardsNotCollectable =>
                "Cannot call send_collect_ids on a lookup_subjects request with wildcards enabled"@,
        }
    }

    /// Hands out the text that describes the error.
    pub fn message(&self) -> (m: &'static str)
        ensures
            m@ == self.message_spec(),
    {
        match self {
            UsageError::MissingResource => "resource is required",
            UsageError::MissingPermission => "permission is required",
            UsageError::MissingSubject => "subject is required",
            UsageError::MissingResourceType => "resource type is required",
            UsageError::IncompleteCaveat => "caveat name and context are both required",
            UsageError::WildcardsNotCollectable =>
                "Cannot call send_collect_ids on a lookup_subjects request with wildcards enabled",
        }
    }
}

impl DecodeError {
    /// The text that describes the error.
    pub open spec fn message_spec(self) -> Seq<char> {
        match self {
            DecodeError::MissingZedToken => "Invalid ZedToken"@,
            DecodeError::MissingObject => "Invalid subject: no object"@,
            DecodeError::MissingResource => "Invalid relationship: no resource"@,
            DecodeError::MissingSubject => "Invalid relationship: no subject"@,
            DecodeError::UnknownDeletionProgress(_) => "Invalid i32 value for DeletionProgress"@,
            DecodeError::UnknownPermissionship(_) => "Invalid i32 value for Permissionship"@,
        }
    }

    /// Hands out the text that describes the error.
    pub fn message(&self) -> (m: &'static str)
        ensures
            m@ == self.message_spec(),
    {
        match self {
            DecodeError::MissingZedToken => "Invalid ZedToken",
            DecodeError::MissingObject => "Invalid subject: no object",
            DecodeError::MissingResource => "Invalid relationship: no resource",
            DecodeError::MissingSubject => "Invalid relationship: no subject",
            DecodeError::UnknownDeletionProgress(_) => "Invalid i32 value for DeletionProgress",
            DecodeError::UnknownPermissionship(_) => "Invalid i32 value for Permissionship",
        }
    }
}

/// A refused request as a failure of the whole call.
impl<T> From<UsageError> for Error<T> {
    fn from(error: UsageError) -> (e: Self) {
        Error::Usage(error)
    }
}

impl<T> FromSpecImpl<UsageError> for Error<T> {
    open spec fn obeys_from_spec() -> bool {
        true
    }

    open spec fn from_spec(error: UsageError) -> Self {
        Error::Usage(error)
    }
}

impl<T> Error<T> {
    /// The kind of the failure.
    pub open spec fn kind_spec(self) -> ErrorKind {
        match self {
            Error::Usage(e) => e.kind_spec(),
            Error::Transport(_) => ErrorKind::Transport,
            Error::Decode(_) => ErrorKind::Protocol,
            Error::InvalidId(_) => ErrorKind::IdentifierConversion,
        }
    }

    /// Hands out the kind of the failure.
    pub fn kind(&self) -> (k: ErrorKind)
        ensures
            k == self.kind_spec(),
    {
        match self {
            Error::Usage(e) => e.kind(),
            Error::Transport(_) => ErrorKind::Transport,
            Error::Decode(_) => ErrorKind::Protocol,
            Error::InvalidId(_) => ErrorKind::IdentifierConversion,
        }
    }

    /// The text that describes a failure found by this library; none for
    /// the transport's own failures, which bring their text with them.
    pub open spec fn message_spec(self) -> Option<Seq<char>> {
        match self {
            Error::Usage(e) => Some(e.message_spec()),
            Error::Transport(_) => None,
            Error::Decode(e) => Some(e.message_spec()),
            Error::InvalidId(id) => Some("Could not parse Id: "@ + id@),
        }
    }

    /// Hands out the text that describes the failure.
    pub fn message(&self) -> (m: Option<String>)
        ensures
            match m {
                Some(text) => self.message_spec() == Some(text@),
                None => self.message_spec() is None,
            },
    {
        match self {
            Error::Usage(e) => Some(e.message().to_owned()),
            Error::Transport(_) => None,
            Error::Decode(e) => Some(e.message().to_owned()),
            Error::InvalidId(id) => Some("Could not parse Id: ".to_owned().concat(id.as_str())),
        }
    }
}

} // verus!
