//! The closed set of request-handling outcomes surfaced to the
//! dispatcher, and their total mapping to response status and body.

use vstd::prelude::*;
use vstd::string::StringSliceAdditionalSpecFns;

verus! {

/// A typed handler failure. Every variant maps to exactly one
/// response status and body shape.
#[derive(Debug)]
pub enum ApiError {
    /// An unexpected failure; maps to status 500.
    InternalServerError(Vec<u8>),
    /// An unmatched route; maps to status 404.
    NotFound(Vec<u8>),
    /// A refused request; maps to status 403.
    Forbidden(Vec<u8>),
    /// A malformed or undecodable request; maps to status 400.
    BadRequest(Vec<u8>),
    /// A deliberately empty outcome; maps to status 204.
    NoContent(Vec<u8>),
}

/// The one response status of each error variant.
pub open spec fn spec_error_status(e: ApiError) -> u16 {
    match e {
        ApiError::InternalServerError(_) => 500,
        ApiError::NotFound(_) => 404,
        ApiError::Forbidden(_) => 403,
        ApiError::BadRequest(_) => 400,
        ApiError::NoContent(_) => 204,
    }
}

/// The one response body of each error variant: a fixed prefix naming
/// the failure, then the variant's reason.
pub open spec fn spec_error_body(e: ApiError) -> Seq<u8> {
    match e {
        ApiError::InternalServerError(m) => "Error in serving request ==> ".spec_bytes() + m@,
        ApiError::NotFound(m) => "Not found: ".spec_bytes() + m@,
        ApiError::Forbidden(m) => "Forbidden: ".spec_bytes() + m@,
        ApiError::BadRequest(m) => "Bad Request: ".spec_bytes() + m@,
        ApiError::NoContent(m) => "No Content: ".spec_bytes() + m@,
    }
}

} // verus!
