//! What can go wrong with one call of the gateway.

use crate::json::Json;
use vstd::prelude::*;

verus! {

/// `reqwest::Error`, the transport's error. It is carried along and never
/// looked into.
#[verifier::external_type_specification]
#[verifier::external_body]
pub struct ExTransportError(reqwest::Error);

/// Why the body of an answer could not be decoded. Either way the body is
/// kept, for diagnosis.
#[derive(Debug)]
pub enum DecodeError {
    /// The body is not JSON.
    Malformed { body: Vec<u8>, cause: serde_json::Error },
    /// The body is JSON and has the shape of none of the outcomes.
    Unmatched { document: Json },
}

/// The two ways in which a call fails. What the gateway itself reports of a
/// payment is no failure of the call: it is an outcome.
#[derive(Debug)]
pub enum GatewayError {
    /// The exchange with the gateway failed.
    Transport(reqwest::Error),
    /// The answer arrived and could not be decoded.
    Decode(DecodeError),
}

impl DecodeError {
    /// The JSON document that has the shape of no outcome, if that is what
    /// went wrong.
    pub fn document(&self) -> (r: Option<&Json>)
        ensures
            match *self {
                DecodeError::Unmatched { document } => r == Some(&document),
                DecodeError::Malformed { .. } => r is None,
            },
    {
        match self {
            DecodeError::Malformed { .. } => None,
            DecodeError::Unmatched { document } => Some(document),
        }
    }
}

} // verus!
