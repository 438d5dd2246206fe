//! The ways a call can fail.

use vstd::prelude::*;

verus! {

/// Why a call produced no response value.
///
/// Every variant carries a human-readable cause.
#[derive(Debug, PartialEq, Eq)]
pub enum ApiError {
    /// The response body is not the JSON document the requested type expects.
    Deserialization(String),
    /// The request address could not be formed.
    UrlParse(String),
    /// The caller's parameters are not acceptable for the endpoint.
    InvalidParams(String),
    /// The request could not be completed: the network failed, or the
    /// service did not answer.
    NetworkFailure(String),
}

impl ApiError {
    /// The cause carried by the error.
    pub open spec fn text(self) -> Seq<char> {
        match self {
            ApiError::Deserialization(cause) => cause@,
            ApiError::UrlParse(cause) => cause@,
            ApiError::InvalidParams(cause) => cause@,
            ApiError::NetworkFailure(cause) => cause@,
        }
    }

    /// The cause carried by the error.
    pub fn message(&self) -> (cause: &str)
        ensures
            cause@ == self.text(),
    {
        match self {
            ApiError::Deserialization(cause) => cause.as_str(),
            ApiError::UrlParse(cause) => cause.as_str(),
            ApiError::InvalidParams(cause) => cause.as_str(),
            ApiError::NetworkFailure(cause) => cause.as_str(),
        }
    }

    /// Whether the error reports a network failure.
    pub fn is_network_failure(&self) -> (network: bool)
        ensures
            network == (*self is NetworkFailure),
    {
        match self {
            ApiError::NetworkFailure(_) => true,
            _ => false,
        }
    }
}

} // verus!
