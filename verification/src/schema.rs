//! Writing and reading the schema of the service. The schema text is
//! passed through as it is.

use crate::error::{DecodeError, Error};
use crate::spicedb::messages::ZedToken;
use crate::spicedb::schema_service::{
    ReadSchemaRequest, WriteSchemaRequest, WriteSchemaResponse,
};
use vstd::prelude::*;

pub use crate::spicedb::wrappers::ReadSchemaResponse;

verus! {

/// What the caller gets of a dispatched schema write: the token of the
/// state that holds the schema; the transport's error where the call
/// failed; a decode error where the response holds no token.
pub open spec fn written_at<T>(reply: Result<WriteSchemaResponse, T>) -> Result<
    ZedToken,
    Error<T>,
> {
    match reply {
        Err(e) => Err(Error::Transport(e)),
        Ok(response) => match response.written_at {
            Some(token) => Ok(token),
            None => Err(Error::Decode(DecodeError::MissingZedToken)),
        },
    }
}

/// What the caller gets of a dispatched schema read: the text and the
/// token; the transport's error where the call failed; a decode error
/// where the response holds no token.
pub open spec fn schema_read<T>(
    reply: Result<crate::spicedb::schema_service::ReadSchemaResponse, T>,
) -> Result<ReadSchemaResponse, Error<T>> {
    match reply {
        Err(e) => Err(Error::Transport(e)),
        Ok(response) => match ReadSchemaResponse::decoded(response) {
            Ok(read) => Ok(read),
            Err(e) => Err(Error::Decode(e)),
        },
    }
}

/// The message that writes a schema.
pub fn write_schema(schema: String) -> (message: WriteSchemaRequest)
    ensures
        message.schema == schema,
{
    WriteSchemaRequest { schema }
}

/// What the caller gets of a dispatched schema write.
pub fn decode_write_schema<T>(reply: Result<WriteSchemaResponse, T>) -> (r: Result<
    ZedToken,
    Error<T>,
>)
    ensures
        r == written_at(reply),
{
    match reply {
        Err(e) => Err(Error::Transport(e)),
        Ok(response) => match response.written_at {
            Some(token) => Ok(token),
            None => Err(Error::Decode(DecodeError::MissingZedToken)),
        },
    }
}

/// The message that reads the schema.
pub fn read_schema() -> (message: ReadSchemaRequest)
    ensures
        message == (ReadSchemaRequest {  }),
{
    ReadSchemaRequest {  }
}

/// What the caller gets of a dispatched schema read.
pub fn decode_read_schema<T>(
    reply: Result<crate::spicedb::schema_service::ReadSchemaResponse, T>,
) -> (r: Result<ReadSchemaResponse, Error<T>>)
    ensures
        r == schema_read(reply),
{
    match reply {
        Err(e) => Err(Error::Transport(e)),
        Ok(response) => match ReadSchemaResponse::decode(response) {
            Ok(read) => Ok(read),
            Err(e) => Err(Error::Decode(e)),
        },
    }
}

} // verus!
