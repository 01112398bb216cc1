//! Messages in the form that callers work with: what the protocol
//! guarantees to be present is present, and what may be absent is an
//! `Option`. Reading a wire message into one of them checks the guarantee.

use crate::error::DecodeError;
use crate::spicedb::consistency::Requirement;
use crate::spicedb::messages::{
    ContextualizedCaveat, ConsistencyView, Cursor, ObjectReference, ZedToken,
};
use crate::spicedb::permission_service::LookupPermissionship;
use vstd::prelude::*;
use vstd::std_specs::convert::FromSpecImpl;

verus! {

/// How fresh the state that a read is answered from has to be. Exactly
/// one mode holds, and the two that speak of a ZedToken carry it.
#[derive(Clone, Debug, PartialEq)]
pub enum Consistency {
    /// Any state will do; the service picks the fastest answer.
    MinimizeLatency,
    /// A state at least as fresh as the token's.
    AtLeastAsFresh(ZedToken),
    /// The very state of the token.
    AtExactSnapshot(ZedToken),
    /// The freshest state there is.
    FullyConsistent,
}

impl Consistency {
    /// The wire message that says the same.
    pub open spec fn wire(self) -> crate::spicedb::messages::Consistency {
        crate::spicedb::messages::Consistency {
            requirement: Some(
                match self {
                    Consistency::MinimizeLatency => Requirement::MinimizeLatency(true),
                    Consistency::AtLeastAsFresh(token) => Requirement::AtLeastAsFresh(token),
                    Consistency::AtExactSnapshot(token) => Requirement::AtExactSnapshot(token),
                    Consistency::FullyConsistent => Requirement::FullyConsistent(true),
                },
            ),
        }
    }
}

impl View for Consistency {
    type V = ConsistencyView;

    open spec fn view(&self) -> ConsistencyView {
        self.wire()@
    }
}

impl From<Consistency> for crate::spicedb::messages::Consistency {
    fn from(consistency: Consistency) -> (wire: Self) {
        let requirement = match consistency {
            Consistency::MinimizeLatency => Requirement::MinimizeLatency(true),
            Consistency::AtLeastAsFresh(token) => Requirement::AtLeastAsFresh(token),
            Consistency::AtExactSnapshot(token) => Requirement::AtExactSnapshot(token),
            Consistency::FullyConsistent => Requirement::FullyConsistent(true),
        };
        crate::spicedb::messages::Consistency { requirement: Some(requirement) }
    }
}

impl FromSpecImpl<Consistency> for crate::spicedb::messages::Consistency {
    open spec fn obeys_from_spec() -> bool {
        true
    }

    open spec fn from_spec(consistency: Consistency) -> Self {
        consistency.wire()
    }
}

/// A subject whose object is known to be there.
#[derive(Clone, Debug, PartialEq)]
pub struct SubjectReference {
    pub object: ObjectReference,
    pub optional_relation: Option<String>,
}

impl SubjectReference {
    /// What a wire subject reads as: an error where it names no object;
    /// else the object, with the relation where one is given.
    pub open spec fn decoded(subject: crate::spicedb::messages::SubjectReference) -> Result<
        SubjectReference,
        DecodeError,
    > {
        match subject.object {
            None => Err(DecodeError::MissingObject),
            Some(object) => Ok(
                SubjectReference {
                    object,
                    optional_relation: if subject.optional_relation@.len() == 0 {
                        None
                    } else {
                        Some(subject.optional_relation)
                    },
                },
            ),
        }
    }

    /// Reads a wire subject.
    pub fn decode(subject: crate::spicedb::messages::SubjectReference) -> (r: Result<
        SubjectReference,
        DecodeError,
    >)
        ensures
            r == Self::decoded(subject),
    {
        match subject.object {
            None => Err(DecodeError::MissingObject),
            Some(object) => {
                let optional_relation = if subject.optional_relation.as_str().is_empty() {
                    None
                } else {
                    Some(subject.optional_relation)
                };
                Ok(SubjectReference { object, optional_relation })
            },
        }
    }
}

/// A relationship whose resource and subject are known to be there.
#[derive(Clone, Debug, PartialEq)]
pub struct Relationship {
    pub resource: ObjectReference,
    pub relation: String,
    pub subject: SubjectReference,
    pub optional_caveat: Option<ContextualizedCaveat>,
}

impl Relationship {
    /// What a wire relationship reads as: an error where the resource,
    /// the subject or the subject's object is missing, in that order;
    /// else the relationship with the same parts.
    pub open spec fn decoded(relationship: crate::spicedb::messages::Relationship) -> Result<
        Relationship,
        DecodeError,
    > {
        match relationship.resource {
            None => Err(DecodeError::MissingResource),
            Some(resource) => match relationship.subject {
                None => Err(DecodeError::MissingSubject),
                Some(subject) => match SubjectReference::decoded(subject) {
                    Err(e) => Err(e),
                    Ok(subject) => Ok(
                        Relationship {
                            resource,
                            relation: relationship.relation,
                            subject,
                            optional_caveat: relationship.optional_caveat,
                        },
                    ),
                },
            },
        }
    }

    /// Reads a wire relationship.
    pub fn decode(relationship: crate::spicedb::messages::Relationship) -> (r: Result<
        Relationship,
        DecodeError,
    >)
        ensures
            r == Self::decoded(relationship),
    {
        let resource = match relationship.resource {
            Some(resource) => resource,
            None => {
                return Err(DecodeError::MissingResource);
            },
        };
        let subject = match relationship.subject {
            Some(subject) => subject,
            None => {
                return Err(DecodeError::MissingSubject);
            },
        };
        match SubjectReference::decode(subject) {
            Err(e) => Err(e),
            Ok(subject) => Ok(
                Relationship {
                    resource,
                    relation: relationship.relation,
                    subject,
                    optional_caveat: relationship.optional_caveat,
                },
            ),
        }
    }
}

/// One element of a stream of relationships: the state it was read at,
/// the relationship if the element holds one, and where to resume.
#[derive(Clone, Debug, PartialEq)]
pub struct ReadRelationshipsResponse {
    pub read_at: ZedToken,
    pub relationships: Vec<Relationship>,
    pub after_result_cursor: Option<Cursor>,
}

impl ReadRelationshipsResponse {
    /// The error that reading a wire element ends in, if it ends in one:
    /// a missing ZedToken, or what is wrong with the relationship.
    pub open spec fn decode_error(
        response: crate::spicedb::permission_service::ReadRelationshipsResponse,
    ) -> Option<DecodeError> {
        if response.read_at is None {
            Some(DecodeError::MissingZedToken)
        } else {
            match response.relationship {
                None => None,
                Some(relationship) => match Relationship::decoded(relationship) {
                    Err(e) => Some(e),
                    Ok(_) => None,
                },
            }
        }
    }

    /// The relationships that a wire element holds: none or one.
    pub open spec fn decoded_relationships(
        response: crate::spicedb::permission_service::ReadRelationshipsResponse,
    ) -> Seq<Relationship> {
        match response.relationship {
            None => Seq::empty(),
            Some(relationship) => match Relationship::decoded(relationship) {
                Err(_) => Seq::empty(),
                Ok(relationship) => seq![relationship],
            },
        }
    }

    /// Reads a wire element.
    pub fn decode(
        response: crate::spicedb::permission_service::ReadRelationshipsResponse,
    ) -> (r: Result<ReadRelationshipsResponse, DecodeError>)
        ensures
            match r {
                Ok(read) => {
                    &&& Self::decode_error(response) is None
                    &&& Some(read.read_at) == response.read_at
                    &&& read.relationships@ == Self::decoded_relationships(response)
                    &&& read.after_result_cursor == response.after_result_cursor
                },
                Err(e) => Self::decode_error(response) == Some(e),
            },
    {
        let read_at = match response.read_at {
            Some(token) => token,
            None => {
                return Err(DecodeError::MissingZedToken);
            },
        };
        let mut relationships: Vec<Relationship> = Vec::new();
        match response.relationship {
            None => {},
            Some(relationship) => match Relationship::decode(relationship) {
                Err(e) => {
                    return Err(e);
                },
                Ok(relationship) => {
                    relationships.push(relationship);
                },
            },
        }
        Ok(
            ReadRelationshipsResponse {
                read_at,
                relationships,
                after_result_cursor: response.after_result_cursor,
            },
        )
    }
}

/// One element of a stream of resources. All resources of one lookup are
/// of one type, so their identifiers are of one type too.
#[derive(Clone, Debug, PartialEq)]
pub struct LookupResourcesResponse<Id> {
    pub id: Id,
    pub looked_up_at: Option<ZedToken>,
    pub permissionship: LookupPermissionship,
    pub missing_caveats: Vec<String>,
    pub after_result_cursor: Option<Cursor>,
}

/// The schema of the service and the state it was read at.
#[derive(Clone, Debug, PartialEq)]
pub struct ReadSchemaResponse {
    pub schema_text: String,
    pub read_at: ZedToken,
}

impl ReadSchemaResponse {
    /// What a wire response reads as: an error where it holds no
    /// ZedToken; else the same text and the token.
    pub open spec fn decoded(response: crate::spicedb::schema_service::ReadSchemaResponse) -> Result<
        ReadSchemaResponse,
        DecodeError,
    > {
        match response.read_at {
            None => Err(DecodeError::MissingZedToken),
            Some(read_at) => Ok(ReadSchemaResponse { schema_text: response.schema_text, read_at }),
        }
    }

    /// Reads a wire response.
    pub fn decode(response: crate::spicedb::schema_service::ReadSchemaResponse) -> (r: Result<
        ReadSchemaResponse,
        DecodeError,
    >)
        ensures
            r == Self::decoded(response),
    {
        match response.read_at {
            None => Err(DecodeError::MissingZedToken),
            Some(read_at) => Ok(ReadSchemaResponse { schema_text: response.schema_text, read_at }),
        }
    }
}

} // verus!
