//! The inbound body path: select a decoder from the request's
//! declared `Content-Encoding` and produce the plain bytes a handler
//! consumes.

use vstd::prelude::*;
use vstd::string::StringSliceAdditionalSpecFns;
use crate::codec::{decode_body, decoded_with};
use crate::encoding::{spec_content_encoding, recognise_content_encoding};
use crate::error::ApiError;
use crate::fmtutil::append_str;
use crate::http_route::HttpRoute;

verus! {

/// What the inbound body path yields for a declared coding and an
/// aggregated body: the decoder's output for a recognised coding, the
/// body unchanged for an absent or unrecognised one, nothing when the
/// recognised coding's decoder rejects the bytes.
pub open spec fn spec_request_bytes(declared: Option<Vec<u8>>, body: Seq<u8>) -> Option<Seq<u8>> {
    match declared {
        None => Some(body),
        Some(ce) => match spec_content_encoding(ce@) {
            None => Some(body),
            Some(enc) => decoded_with(enc, body),
        },
    }
}

/// The inbound request's body operations.
pub struct HttpRequest;

impl HttpRequest {
    /// Decode an aggregated request body per the context's declared
    /// `Content-Encoding`: a recognised coding selects its decoder, an
    /// absent or unrecognised one passes the bytes through. Succeeds
    /// exactly when the selected decoder accepts the bytes; a rejected
    /// body surfaces as the bad-request failure.
    pub fn bytes(route: &HttpRoute, body: Vec<u8>) -> (r: Result<Vec<u8>, ApiError>)
        ensures
            (match r {
                Ok(v) => Some(v@) == spec_request_bytes(route.content_encoding, body@),
                Err(e) => spec_request_bytes(route.content_encoding, body@) is None && (e matches
                    ApiError::BadRequest(m) && m@ == "Error in aggregating body".spec_bytes()),
            }),
    {
        match &route.content_encoding {
            None => Ok(body),
            Some(ce) => {
                match recognise_content_encoding(ce) {
                    None => Ok(body),
                    Some(enc) => {
                        match decode_body(enc, &body) {
                            Some(decoded) => Ok(decoded),
                            None => {
                                let mut m: Vec<u8> = Vec::new();
                                append_str(&mut m, "Error in aggregating body");
                                assert(m@ =~= "Error in aggregating body".spec_bytes());
                                Err(ApiError::BadRequest(m))
                            },
                        }
                    },
                }
            },
        }
    }
}

} // verus!
