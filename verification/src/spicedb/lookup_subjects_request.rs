//! What belongs to a subject lookup request alone.

use vstd::prelude::*;

verus! {

/// Whether a subject lookup reports wildcard subjects.
#[derive(Clone, Copy, Debug, PartialEq, Eq)]
pub enum WildcardOption {
    /// The service decides.
    Unspecified,
    /// Wildcard subjects are reported.
    IncludeWildcards,
    /// Only concrete subjects are reported.
    ExcludeWildcards,
}

impl WildcardOption {
    /// The number that stands for the value on the wire.
    pub open spec fn number(self) -> i32 {
        match self {
            WildcardOption::Unspecified => 0i32,
            WildcardOption::IncludeWildcards => 1i32,
            WildcardOption::ExcludeWildcards => 2i32,
        }
    }

    /// The value that a wire number stands for, if it stands for one.
    pub open spec fn of_number(value: i32) -> Option<WildcardOption> {
        if value == 0 {
            Some(WildcardOption::Unspecified)
        } else if value == 1 {
            Some(WildcardOption::IncludeWildcards)
        } else if value == 2 {
            Some(WildcardOption::ExcludeWildcards)
        } else {
            None
        }
    }

    /// Every value is read back from its own wire number.
    pub proof fn number_round_trip(self)
        ensures
            Self::of_number(self.number()) == Some(self),
    {
    }

    /// Hands out the wire number of the value.
    pub fn to_i32(self) -> (value: i32)
        ensures
            value == self.number(),
    {
        match self {
            WildcardOption::Unspecified => 0,
            WildcardOption::IncludeWildcards => 1,
            WildcardOption::ExcludeWildcards => 2,
        }
    }

    /// Reads a wire number; `None` where it stands for no value.
    pub fn from_i32(value: i32) -> (r: Option<WildcardOption>)
        ensures
            r == Self::of_number(value),
    {
        if value == 0 {
            Some(WildcardOption::Unspecified)
        } else if value == 1 {
            Some(WildcardOption::IncludeWildcards)
        } else if value == 2 {
            Some(WildcardOption::ExcludeWildcards)
        } else {
            None
        }
    }
}

} // verus!
