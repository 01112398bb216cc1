//! The request that reads the stored relationships that a filter
//! matches, and the reading of the stream that answers it.

use crate::error::{Error, UsageError};
use crate::spicedb::messages::{
    Consistency as WireConsistency, Cursor, RelationshipFilter,
};
use crate::spicedb::permission_service::ReadRelationshipsRequestView;
use crate::spicedb::wrappers::{Consistency, ReadRelationshipsResponse};
use crate::spicedb::permission_service as wire;
use vstd::prelude::*;

verus! {

/// What stands against dispatching the request, if anything does: that
/// no filter was set, or that the filter names no resource type.
pub open spec fn refusal(request: ReadRelationshipsRequestView) -> Option<UsageError> {
    match request.relationship_filter {
        None => Some(UsageError::MissingResourceType),
        Some(filter) => if filter.resource_type.len() == 0 {
            Some(UsageError::MissingResourceType)
        } else {
            None
        },
    }
}

/// The error that reading one element of the stream ends in, if it ends
/// in one: the transport's, or what is wrong with the element.
pub open spec fn element_error<T>(
    item: Result<wire::ReadRelationshipsResponse, T>,
) -> Option<Error<T>> {
    match item {
        Err(e) => Some(Error::Transport(e)),
        Ok(response) => match ReadRelationshipsResponse::decode_error(response) {
            Some(e) => Some(Error::Decode(e)),
            None => None,
        },
    }
}

/// Accumulates a reading of stored relationships.
pub struct ReadRelationshipsRequest {
    request: wire::ReadRelationshipsRequest,
}

impl View for ReadRelationshipsRequest {
    type V = ReadRelationshipsRequestView;

    closed spec fn view(&self) -> ReadRelationshipsRequestView {
        self.request@
    }
}

impl ReadRelationshipsRequest {
    /// A request in which nothing is set yet.
    pub fn new() -> (request: Self)
        ensures
            request@ == (ReadRelationshipsRequestView {
                consistency: None,
                relationship_filter: None,
                optional_limit: 0,
                optional_cursor: None,
            }),
    {
        ReadRelationshipsRequest {
            request: wire::ReadRelationshipsRequest {
                consistency: None,
                relationship_filter: None,
                optional_limit: 0,
                optional_cursor: None,
            },
        }
    }

    /// Sets the number of results to answer with at most; 0 for no limit.
    pub fn with_limit(&mut self, limit: u32) -> (ret: &mut Self)
        ensures
            ret@ == (ReadRelationshipsRequestView { optional_limit: limit, ..old(self)@ }),
            *final(self) == *final(ret),
    {
        self.request.optional_limit = limit;
        self
    }

    /// Resumes after the result that the cursor came with.
    pub fn with_cursor(&mut self, cursor: Cursor) -> (ret: &mut Self)
        ensures
            ret@ == (ReadRelationshipsRequestView {
                optional_cursor: Some(cursor@),
                ..old(self)@
            }),
            *final(self) == *final(ret),
    {
        self.request.optional_cursor = Some(cursor);
        self
    }

    /// Sets the filter that the relationships to read have to match.
    pub fn with_relationship_filter(&mut self, filter: RelationshipFilter) -> (ret: &mut Self)
        ensures
            ret@ == (ReadRelationshipsRequestView {
                relationship_filter: Some(filter@),
                ..old(self)@
            }),
            *final(self) == *final(ret),
    {
        self.request.relationship_filter = Some(filter);
        self
    }

    /// Sets how fresh the state has to be that the request is answered from.
    pub fn with_consistency(&mut self, consistency: Consistency) -> (ret: &mut Self)
        ensures
            ret@ == (ReadRelationshipsRequestView {
                consistency: Some(consistency@),
                ..old(self)@
            }),
            *final(self) == *final(ret),
    {
        self.request.consistency = Some(WireConsistency::from(consistency));
        self
    }

    /// Closes the builder. Where no filter was set, or the filter names
    /// no resource type, nothing may be dispatched; else the result is
    /// the message to dispatch, which holds what was set. Each element of
    /// the stream that answers goes to `decode`.
    pub fn send(self) -> (r: Result<
        wire::ReadRelationshipsRequest,
        UsageError,
    >)
        ensures
            match r {
                Ok(message) => refusal(self@) is None && message@ == self@,
                Err(e) => refusal(self@) == Some(e),
            },
    {
        let named = match &self.request.relationship_filter {
            Some(filter) => !filter.resource_type.as_str().is_empty(),
            None => false,
        };
        if !named {
            return Err(UsageError::MissingResourceType);
        }
        Ok(self.request)
    }
}

/// Reads one element of the stream. An element that does not read
/// gives its own error and leaves the elements before and after it
/// as they are.
pub fn decode<T>(
    item: Result<wire::ReadRelationshipsResponse, T>,
) -> (r: Result<ReadRelationshipsResponse, Error<T>>)
    ensures
        match r {
            Ok(read) => {
                &&& item matches Ok(response)
                &&& element_error(item) is None
                &&& Some(read.read_at) == response.read_at
                &&& read.relationships@ == ReadRelationshipsResponse::decoded_relationships(
                    response,
                )
                &&& read.after_result_cursor == response.after_result_cursor
            },
            Err(e) => element_error(item) == Some(e),
        },
{
    match item {
        Err(e) => Err(Error::Transport(e)),
        Ok(response) => match ReadRelationshipsResponse::decode(response) {
            Ok(read) => Ok(read),
            Err(e) => Err(Error::Decode(e)),
        },
    }
}

} // verus!
