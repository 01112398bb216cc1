//! Identifiers that are UUIDs, written on the wire in the hyphenated
//! form.

use crate::entity::EntityId;
use vstd::prelude::*;

verus! {

/// The position among the 32 digits of a UUID of the digit that stands at
/// a position of the hyphenated form which holds no hyphen.
pub open spec fn digit_index(position: int) -> int {
    if position < 8 {
        position
    } else if position < 13 {
        position - 1
    } else if position < 18 {
        position - 2
    } else if position < 23 {
        position - 3
    } else {
        position - 4
    }
}

/// The hyphenated form of a UUID: its 32 hexadecimal digits in lower
/// case, the most significant first, in groups of 8, 4, 4, 4 and 12 with
/// a hyphen between two groups.
pub open spec fn hyphenated(value: u128) -> Seq<char> {
    Seq::new(
        36,
        |position: int|
            if position == 8 || position == 13 || position == 18 || position == 23 {
                '-'
            } else {
                "0123456789abcdef"@[(value as int / vstd::arithmetic::power::pow(
                    16,
                    (31 - digit_index(position)) as nat,
                )) % 16]
            },
    )
}

/// The UUID that `uuid::Uuid::parse_str` reads from a string, as a
/// number, if it reads one.
pub uninterp spec fn parsed_uuid(s: Seq<char>) -> Option<u128>;

/// Makes the UUID of a number with `uuid::Uuid::from_u128` and formats it
/// with `uuid::Uuid`'s `Display`, which writes the hyphenated form in
/// lower case. The contract states that form, and that
/// `uuid::Uuid::parse_str` reads it back as the same UUID.
#[verifier::external_body]
fn format_uuid(value: u128) -> (s: String)
    ensures
        s@ == hyphenated(value),
        parsed_uuid(s@) == Some(value),
{
    uuid::Uuid::from_u128(value).to_string()
}

/// Reads a UUID with `uuid::Uuid::parse_str` and takes its number with
/// `uuid::Uuid::as_u128`. The contract names the result: the number of
/// the UUID, or `None` where the string is no UUID in any of the forms
/// that `parse_str` accepts.
#[verifier::external_body]
fn parse_uuid(s: &str) -> (value: Option<u128>)
    ensures
        value == parsed_uuid(s@),
{
    match uuid::Uuid::parse_str(s) {
        Ok(id) => Some(id.as_u128()),
        Err(_) => None,
    }
}

/// An identifier that is a UUID, held as its 128-bit number.
#[derive(Clone, Copy, Debug, PartialEq, Eq, Hash)]
pub struct UuidId {
    pub value: u128,
}

impl View for UuidId {
    type V = u128;

    open spec fn view(&self) -> u128 {
        self.value
    }
}

impl UuidId {
    /// The identifier of the UUID with the given number.
    pub fn new(value: u128) -> (id: Self)
        ensures
            id@ == value,
    {
        UuidId { value }
    }

    /// The identifier that a parsed UUID stands for, if one was parsed.
    pub fn from_parsed(value: Option<u128>) -> (id: Option<Self>)
        ensures
            match id {
                Some(id) => value == Some(id@),
                None => value is None,
            },
    {
        match value {
            Some(value) => Some(UuidId { value }),
            None => None,
        }
    }
}

impl EntityId for UuidId {
    open spec fn wire(v: u128) -> Seq<char> {
        hyphenated(v)
    }

    open spec fn parse_wire(s: Seq<char>) -> Option<u128> {
        parsed_uuid(s)
    }

    fn into_wire(self) -> (s: String) {
        format_uuid(self.value)
    }

    fn from_wire(s: &str) -> (r: Option<Self>) {
        Self::from_parsed(parse_uuid(s))
    }
}

} // verus!
