//! What belongs to the response to a permission check alone.

use vstd::prelude::*;

verus! {

/// What a permission check found.
#[derive(Clone, Copy, Debug, PartialEq, Eq)]
pub enum Permissionship {
    /// The service gave no answer.
    Unspecified,
    /// The subject does not have the permission.
    NoPermission,
    /// The subject has the permission.
    HasPermission,
    /// The answer depends on caveat attributes that the request did not give.
    ConditionalPermission,
}

impl Permissionship {
    /// The number that stands for the value on the wire.
    pub open spec fn number(self) -> i32 {
        match self {
            Permissionship::Unspecified => 0i32,
            Permissionship::NoPermission => 1i32,
            Permissionship::HasPermission => 2i32,
            Permissionship::ConditionalPermission => 3i32,
        }
    }

    /// The value that a wire number stands for, if it stands for one.
    pub open spec fn of_number(value: i32) -> Option<Permissionship> {
        if value == 0 {
            Some(Permissionship::Unspecified)
        } else if value == 1 {
            Some(Permissionship::NoPermission)
        } else if value == 2 {
            Some(Permissionship::HasPermission)
        } else if value == 3 {
            Some(Permissionship::ConditionalPermission)
        } else {
            None
        }
    }

    /// Every value is read back from its own wire number.
    pub proof fn number_round_trip(self)
        ensures
            Self::of_number(self.number()) == Some(self),
    {
    }

    /// Hands out the wire number of the value.
    pub fn to_i32(self) -> (value: i32)
        ensures
            value == self.number(),
    {
        match self {
            Permissionship::Unspecified => 0,
            Permissionship::NoPermission => 1,
            Permissionship::HasPermission => 2,
            Permissionship::ConditionalPermission => 3,
        }
    }

    /// Reads a wire number; `None` where it stands for no value.
    pub fn from_i32(value: i32) -> (r: Option<Permissionship>)
        ensures
            r == Self::of_number(value),
    {
        if value == 0 {
            Some(Permissionship::Unspecified)
        } else if value == 1 {
            Some(Permissionship::NoPermission)
        } else if value == 2 {
            Some(Permissionship::HasPermission)
        } else if value == 3 {
            Some(Permissionship::ConditionalPermission)
        } else {
            None
        }
    }
}

} // verus!
