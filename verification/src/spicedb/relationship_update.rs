//! What belongs to a relationship update alone.

use vstd::prelude::*;

verus! {

/// What a relationship update does to its relationship.
#[derive(Clone, Copy, Debug, PartialEq, Eq)]
pub enum Operation {
    /// No operation was chosen.
    Unspecified,
    /// Writes the relationship; the write fails if it is already there.
    Create,
    /// Writes the relationship whether or not it is already there.
    Touch,
    /// Removes the relationship; nothing happens if it is not there.
    Delete,
}

impl Operation {
    /// The number that stands for the value on the wire.
    pub open spec fn number(self) -> i32 {
        match self {
            Operation::Unspecified => 0i32,
            Operation::Create => 1i32,
            Operation::Touch => 2i32,
            Operation::Delete => 3i32,
        }
    }

    /// The value that a wire number stands for, if it stands for one.
    pub open spec fn of_number(value: i32) -> Option<Operation> {
        if value == 0 {
            Some(Operation::Unspecified)
        } else if value == 1 {
            Some(Operation::Create)
        } else if value == 2 {
            Some(Operation::Touch)
        } else if value == 3 {
            Some(Operation::Delete)
        } else {
            None
        }
    }

    /// Every value is read back from its own wire number.
    pub proof fn number_round_trip(self)
        ensures
            Self::of_number(self.number()) == Some(self),
    {
    }

    /// Hands out the wire number of the value.
    pub fn to_i32(self) -> (value: i32)
        ensures
            value == self.number(),
    {
        match self {
            Operation::Unspecified => 0,
            Operation::Create => 1,
            Operation::Touch => 2,
            Operation::Delete => 3,
        }
    }

    /// Reads a wire number; `None` where it stands for no value.
    pub fn from_i32(value: i32) -> (r: Option<Operation>)
        ensures
            r == Self::of_number(value),
    {
        if value == 0 {
            Some(Operation::Unspecified)
        } else if value == 1 {
            Some(Operation::Create)
        } else if value == 2 {
            Some(Operation::Touch)
        } else if value == 3 {
            Some(Operation::Delete)
        } else {
            None
        }
    }
}

} // verus!
