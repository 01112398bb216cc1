//! What a domain type has to say of itself to take part in permission
//! requests: the name of its object type, how its identifiers are written
//! on the wire, and the names of its relations and permissions.

use crate::spicedb::messages::{SubjectReference, SubjectReferenceView};
use vstd::prelude::*;
use vstd::string::StrSliceExecFns;

verus! {

/// An identifier that can be written as a wire string and read back.
///
/// The view of an identifier is its mathematical value. Writing a value
/// and reading the result gives the value back; a string that is no
/// identifier reads as `None`, never as some other identifier.
pub trait EntityId: View + Sized {
    /// The wire string of an identifier.
    spec fn wire(v: Self::V) -> Seq<char>;

    /// The identifier that a wire string holds, if it holds one.
    spec fn parse_wire(s: Seq<char>) -> Option<Self::V>;

    /// Writes the identifier as a wire string, which reads back as the
    /// identifier.
    fn into_wire(self) -> (s: String)
        ensures
            s@ == Self::wire(self@),
            Self::parse_wire(s@) == Some(self@),
    ;

    /// Reads an identifier from a wire string.
    fn from_wire(s: &str) -> (r: Option<Self>)
        ensures
            match r {
                Some(id) => Self::parse_wire(s@) == Some(id@),
                None => Self::parse_wire(s@) is None,
            },
    ;
}

/// The values of a list of identifiers.
pub open spec fn id_values<I: EntityId>(ids: Seq<I>) -> Seq<I::V> {
    ids.map_values(|id: I| id@)
}

/// A string is its own wire form, and every string is an identifier.
impl EntityId for String {
    open spec fn wire(v: Seq<char>) -> Seq<char> {
        v
    }

    open spec fn parse_wire(s: Seq<char>) -> Option<Seq<char>> {
        Some(s)
    }

    fn into_wire(self) -> (s: String) {
        self
    }

    fn from_wire(s: &str) -> (r: Option<Self>) {
        Some(s.to_owned())
    }
}

/// A named edge between a subject and a resource.
pub trait Relation {
    /// Whether the value stands for a relation at all. Only a relation
    /// may be asked for its name.
    spec fn has_name(&self) -> bool;

    /// The relation's name.
    spec fn name_spec(&self) -> Seq<char>;

    /// Hands out the relation's name.
    fn name(&self) -> (n: &'static str)
        requires
            self.has_name(),
        ensures
            n@ == self.name_spec(),
    ;
}

/// A named permission of a resource. Names are never empty, and two
/// permissions of one resource type never share a name.
pub trait Permission: Sized {
    /// The permission's name.
    spec fn name_spec(&self) -> Seq<char>;

    /// Permissions with the same name are the same permission.
    proof fn names_are_unique(a: Self, b: Self)
        requires
            a.name_spec() == b.name_spec(),
        ensures
            a == b,
    ;

    /// Hands out the permission's name.
    fn name(&self) -> (n: &'static str)
        ensures
            n@ == self.name_spec(),
            n@.len() > 0,
    ;
}

/// Any object of the permission system. The object type is one name for
/// the whole type, and it is never empty.
pub trait Entity: 'static {
    /// The relations that subjects can have to the entity.
    type Relations: Relation;

    /// The identifiers of the entities of the type.
    type Id: EntityId;

    /// The name of the object type.
    spec fn object_type_spec() -> Seq<char>;

    /// Hands out the name of the object type.
    fn object_type() -> (t: &'static str)
        ensures
            t@ == Self::object_type_spec(),
            t@.len() > 0,
    ;
}

/// An entity that has permissions.
pub trait Resource: Entity {
    /// The permissions that subjects can have on the resource.
    type Permissions: Permission;
}

/// A named condition on a relationship, with the type that holds its
/// attributes before they are put in wire form. The name is never empty.
pub trait Caveat {
    /// The caveat's attributes as the caller holds them.
    type ContextStruct: Into<prost_types::Struct>;

    /// Whether the type stands for a caveat at all. Only a caveat may be
    /// asked for its name.
    spec fn has_name() -> bool;

    /// The caveat's name.
    spec fn name_spec() -> Seq<char>;

    /// Hands out the caveat's name.
    fn name() -> (n: &'static str)
        requires
            Self::has_name(),
        ensures
            n@ == Self::name_spec(),
            n@.len() > 0,
    ;
}

/// Someone or something that acts in the system, and so can stand as the
/// subject of a request.
pub trait Actor: 'static {
    /// The subject reference that stands for the actor.
    spec fn subject_spec(&self) -> SubjectReferenceView;

    /// Hands out the subject reference that stands for the actor.
    fn to_subject(&self) -> (s: SubjectReference)
        ensures
            s@ == self.subject_spec(),
    ;
}

/// Stands in where a caveat type is asked for and none applies. It has no
/// name to give.
pub struct NoCaveat;

impl Caveat for NoCaveat {
    type ContextStruct = prost_types::Struct;

    open spec fn has_name() -> bool {
        false
    }

    open spec fn name_spec() -> Seq<char> {
        Seq::empty()
    }

    fn name() -> (n: &'static str) {
        vstd::pervasive::unreached()
    }
}

/// The relations of an entity that nothing is ever related to. It has no
/// name to give.
pub struct NoRelations;

impl Relation for NoRelations {
    open spec fn has_name(&self) -> bool {
        false
    }

    open spec fn name_spec(&self) -> Seq<char> {
        Seq::empty()
    }

    fn name(&self) -> (n: &'static str) {
        vstd::pervasive::unreached()
    }
}

/// The identifier that stands for every subject of an object type. Its
/// wire form is `*`, and `*` is the only string that reads as it.
pub struct WildCardId;

impl View for WildCardId {
    type V = ();

    open spec fn view(&self) -> () {
        ()
    }
}

impl EntityId for WildCardId {
    open spec fn wire(v: ()) -> Seq<char> {
        seq!['*']
    }

    open spec fn parse_wire(s: Seq<char>) -> Option<()> {
        if s == seq!['*'] {
            Some(())
        } else {
            None
        }
    }

    fn into_wire(self) -> (s: String) {
        proof {
            reveal_strlit("*");
        }
        let s = "*".to_owned();
        assert(s@ =~= seq!['*']);
        s
    }

    fn from_wire(s: &str) -> (r: Option<Self>) {
        if s.unicode_len() == 1 && s.get_char(0) == '*' {
            assert(s@ =~= seq!['*']);
            Some(WildCardId)
        } else {
            assert(s@ != seq!['*']) by {
                if s@ == seq!['*'] {
                    assert(s@.len() == 1);
                    assert(s@[0] == '*');
                }
            }
            None
        }
    }
}

} // verus!
