//! What belongs to the response to a deletion alone.

use vstd::prelude::*;

verus! {

/// How far a deletion got.
#[derive(Clone, Copy, Debug, PartialEq, Eq)]
pub enum DeletionProgress {
    /// The service did not say.
    Unspecified,
    /// Every matching relationship was removed.
    Complete,
    /// The limit was reached with matching relationships left.
    Partial,
}

impl DeletionProgress {
    /// The number that stands for the value on the wire.
    pub open spec fn number(self) -> i32 {
        match self {
            DeletionProgress::Unspecified => 0i32,
            DeletionProgress::Complete => 1i32,
            DeletionProgress::Partial => 2i32,
        }
    }

    /// The value that a wire number stands for, if it stands for one.
    pub open spec fn of_number(value: i32) -> Option<DeletionProgress> {
        if value == 0 {
            Some(DeletionProgress::Unspecified)
        } else if value == 1 {
            Some(DeletionProgress::Complete)
        } else if value == 2 {
            Some(DeletionProgress::Partial)
        } else {
            None
        }
    }

    /// Every value is read back from its own wire number.
    pub proof fn number_round_trip(self)
        ensures
            Self::of_number(self.number()) == Some(self),
    {
    }

    /// Hands out the wire number of the value.
    pub fn to_i32(self) -> (value: i32)
        ensures
            value == self.number(),
    {
        match self {
            DeletionProgress::Unspecified => 0,
            DeletionProgress::Complete => 1,
            DeletionProgress::Partial => 2,
        }
    }

    /// Reads a wire number; `None` where it stands for no value.
    pub fn from_i32(value: i32) -> (r: Option<DeletionProgress>)
        ensures
            r == Self::of_number(value),
    {
        if value == 0 {
            Some(DeletionProgress::Unspecified)
        } else if value == 1 {
            Some(DeletionProgress::Complete)
        } else if value == 2 {
            Some(DeletionProgress::Partial)
        } else {
            None
        }
    }
}

} // verus!
