//! The relay's error taxonomy. Every failure an operation can report is one
//! of these variants, and each renders to the human-readable string that ends
//! up in the response envelope.

use vstd::prelude::*;
use crate::numfmt::{spec_dec, u64_to_dec};
use crate::strutil::{concat2, concat4};

verus! {

#[derive(Debug)]
pub enum RelayError {
    /// The caller supplied no usable bearer token.
    InvalidCredentials,
    /// The upstream provider could not be reached.
    Transport(String),
    /// The upstream body could not be read in the expected shape.
    Decode(String),
    /// The upstream provider answered and reported failure.
    Upstream { status: u16, message: String },
    /// A locally enforced constraint was violated before any upstream call.
    Validation(String),
    /// The analytics endpoint reported query errors.
    GraphQl(String),
    /// The analytics endpoint returned a null or absent data field.
    NoData,
    /// The analytics response lacked the expected nested structure.
    MalformedResponse,
    /// A query execution returned an empty result list.
    NoResult,
}

impl RelayError {
    pub open spec fn spec_message(self) -> Seq<char> {
        match self {
            RelayError::InvalidCredentials => "Invalid credentials: API Token is required"@,
            RelayError::Transport(d) => "Request failed: "@ + d@,
            RelayError::Decode(d) => d@,
            RelayError::Upstream { status, message } => "API error ("@ + spec_dec(
                status as u64,
            ) + "): "@ + message@,
            RelayError::Validation(d) => d@,
            RelayError::GraphQl(d) => "GraphQL API error: "@ + d@,
            RelayError::NoData => "GraphQL returned no data: the API token may lack analytics read permission, the zone id may be wrong, or the zone may have no history for the requested range"@,
            RelayError::MalformedResponse => "Failed to parse GraphQL response structure"@,
            RelayError::NoResult => "No query results returned"@,
        }
    }

    pub fn message(&self) -> (r: String)
        ensures
            r@ == self.spec_message(),
    {
        match self {
            RelayError::InvalidCredentials => "Invalid credentials: API Token is required".to_owned(),
            RelayError::Transport(d) => concat2("Request failed: ", d.as_str()),
            RelayError::Decode(d) => d.clone(),
            RelayError::Upstream { status, message } => {
                let code = u64_to_dec(*status as u64);
                concat4("API error (", code.as_str(), "): ", message.as_str())
            },
            RelayError::Validation(d) => d.clone(),
            RelayError::GraphQl(d) => concat2("GraphQL API error: ", d.as_str()),
            RelayError::NoData => "GraphQL returned no data: the API token may lack analytics read permission, the zone id may be wrong, or the zone may have no history for the requested range".to_owned(),
            RelayError::MalformedResponse => "Failed to parse GraphQL response structure".to_owned(),
            RelayError::NoResult => "No query results returned".to_owned(),
        }
    }
}

} // verus!
