//! What belongs to a precondition alone.

use vstd::prelude::*;

verus! {

/// What a precondition asks of the relationships that its filter matches.
#[derive(Clone, Copy, Debug, PartialEq, Eq)]
pub enum Operation {
    /// No operation was chosen.
    Unspecified,
    /// No stored relationship may match the filter.
    MustNotMatch,
    /// At least one stored relationship must match the filter.
    MustMatch,
}

impl Operation {
    /// The number that stands for the value on the wire.
    pub open spec fn number(self) -> i32 {
        match self {
            Operation::Unspecified => 0i32,
            Operation::MustNotMatch => 1i32,
            Operation::MustMatch => 2i32,
        }
    }

    /// The value that a wire number stands for, if it stands for one.
    pub open spec fn of_number(value: i32) -> Option<Operation> {
        if value == 0 {
            Some(Operation::Unspecified)
        } else if value == 1 {
            Some(Operation::MustNotMatch)
        } else if value == 2 {
            Some(Operation::MustMatch)
        } else {
            None
        }
    }

    /// Every value is read back from its own wire number.
    pub proof fn number_round_trip(self)
        ensures
            Self::of_number(self.number()) == Some(self),
    {
    }

    /// Hands out the wire number of the value.
    pub fn to_i32(self) -> (value: i32)
        ensures
            value == self.number(),
    {
        match self {
            Operation::Unspecified => 0,
            Operation::MustNotMatch => 1,
            Operation::MustMatch => 2,
        }
    }

    /// Reads a wire number; `None` where it stands for no value.
    pub fn from_i32(value: i32) -> (r: Option<Operation>)
        ensures
            r == Self::of_number(value),
    {
        if value == 0 {
            Some(Operation::Unspecified)
        } else if value == 1 {
            Some(Operation::MustNotMatch)
        } else if value == 2 {
            Some(Operation::MustMatch)
        } else {
            None
        }
    }
}

} // verus!
