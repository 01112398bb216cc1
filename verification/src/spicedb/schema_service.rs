//! The requests and responses of the schema service. The schema text is
//! passed through as it is.

use crate::spicedb::messages::ZedToken;
use vstd::prelude::*;

verus! {

/// Asks the service to take the text as its schema.
#[derive(Clone, Debug, PartialEq)]
pub struct WriteSchemaRequest {
    pub schema: String,
}

/// The state that holds the written schema.
#[derive(Clone, Debug, PartialEq)]
pub struct WriteSchemaResponse {
    pub written_at: Option<ZedToken>,
}

/// Asks the service for its schema.
#[derive(Clone, Debug, PartialEq)]
pub struct ReadSchemaRequest {}

/// The schema and the state it was read at.
#[derive(Clone, Debug, PartialEq)]
pub struct ReadSchemaResponse {
    pub schema_text: String,
    pub read_at: Option<ZedToken>,
}

} // verus!
