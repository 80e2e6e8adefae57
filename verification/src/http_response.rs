//! Response construction: one builder per outcome shape, and the
//! outbound compression step driven by the request's negotiated
//! `Accept-Encoding`.

use vstd::prelude::*;
use vstd::string::StringSliceAdditionalSpecFns;
use crate::codec::{decoded_with, encode_body, encoded_with};
use crate::encoding::Encoding;
use crate::error::{ApiError, spec_error_body, spec_error_status};
use crate::fmtutil::{append_bytes, append_str};
use crate::http_route::HttpRoute;

verus! {

/// A response as plain values: status, the headers this runtime
/// produces, and the whole body.
pub struct HttpResponse {
    /// The response status code.
    pub status: u16,
    /// The `Content-Type` header value, when one is set.
    pub content_type: Option<Vec<u8>>,
    /// The coding the body was compressed with, when one was applied;
    /// rendered as the `Content-Encoding` header.
    pub content_encoding: Option<Encoding>,
    /// The elapsed-time stamp, when the dispatcher added one.
    pub time_taken_ms: Option<u64>,
    /// The response body.
    pub body: Vec<u8>,
}

/// The result a handler gives the dispatcher: a response, or a typed
/// failure.
pub type HttpResult = Result<HttpResponse, ApiError>;

/// The body a request's negotiated coding turns an outbound body
/// into: passed through unchanged when none was negotiated.
pub open spec fn spec_compressed_body(accept: Option<Encoding>, b: Seq<u8>) -> Seq<u8> {
    match accept {
        None => b,
        Some(e) => encoded_with(e, b),
    }
}

impl HttpResponse {
    /// A plain response: the status and body, no header fields set.
    pub open spec fn spec_plain(self, status: u16, body: Seq<u8>) -> bool {
        self.status == status && self.body@ == body && self.content_type is None
            && self.content_encoding is None && self.time_taken_ms is None
    }

    /// An OK response as `ok` and its siblings build it: status 200,
    /// the body compressed per the request's negotiated coding, and
    /// the `Content-Encoding` header set exactly when one was.
    pub open spec fn spec_ok_response(
        self,
        route: HttpRoute,
        content_type: Option<Seq<u8>>,
        body: Seq<u8>,
    ) -> bool {
        self.status == 200 && self.body@ == spec_compressed_body(route.accept_encoding, body)
            && self.content_encoding == route.accept_encoding && (match (
            self.content_type,
            content_type,
        ) {
            (Some(ct), Some(want)) => ct@ == want,
            (None, None) => true,
            _ => false,
        }) && self.time_taken_ms is None && (match route.accept_encoding {
            Some(e) => decoded_with(e, self.body@) == Some(body),
            None => true,
        })
    }

    fn plain(status: u16, body: Vec<u8>) -> (r: HttpResponse)
        ensures
            r.spec_plain(status, body@),
    {
        HttpResponse {
            status,
            content_type: None,
            content_encoding: None,
            time_taken_ms: None,
            body,
        }
    }

    fn build_response(status: u16, body: Vec<u8>) -> (r: HttpResult)
        ensures
            r matches Ok(resp) && resp.spec_plain(status, body@),
    {
        Ok(Self::plain(status, body))
    }

    /// A status-500 response wrapping an unexpected failure.
    pub fn internal_server_error(error: &Vec<u8>) -> (r: HttpResult)
        ensures
            r matches Ok(resp) && resp.spec_plain(
                500,
                "Error in serving request ==> ".spec_bytes() + error@,
            ),
    {
        let mut body: Vec<u8> = Vec::new();
        append_str(&mut body, "Error in serving request ==> ");
        append_bytes(&mut body, error);
        Self::build_response(500, body)
    }

    /// A status-404 response naming what was not found.
    pub fn not_found(reason: &Vec<u8>) -> (r: HttpResult)
        ensures
            r matches Ok(resp) && resp.spec_plain(404, "Not found: ".spec_bytes() + reason@),
    {
        let mut body: Vec<u8> = Vec::new();
        append_str(&mut body, "Not found: ");
        append_bytes(&mut body, reason);
        Self::build_response(404, body)
    }

    /// A status-403 response naming what was refused.
    pub fn forbidden(reason: &Vec<u8>) -> (r: HttpResult)
        ensures
            r matches Ok(resp) && resp.spec_plain(403, "Forbidden: ".spec_bytes() + reason@),
    {
        let mut body: Vec<u8> = Vec::new();
        append_str(&mut body, "Forbidden: ");
        append_bytes(&mut body, reason);
        Self::build_response(403, body)
    }

    /// A status-400 response naming what was malformed.
    pub fn bad_request(error: &Vec<u8>) -> (r: HttpResult)
        ensures
            r matches Ok(resp) && resp.spec_plain(400, "Bad Request: ".spec_bytes() + error@),
    {
        let mut body: Vec<u8> = Vec::new();
        append_str(&mut body, "Bad Request: ");
        append_bytes(&mut body, error);
        Self::build_response(400, body)
    }

    /// A status-204 response naming why nothing is returned.
    pub fn no_content(reason: &Vec<u8>) -> (r: HttpResult)
        ensures
            r matches Ok(resp) && resp.spec_plain(204, "No Content: ".spec_bytes() + reason@),
    {
        let mut body: Vec<u8> = Vec::new();
        append_str(&mut body, "No Content: ");
        append_bytes(&mut body, reason);
        Self::build_response(204, body)
    }

    /// A status-200 response with the given body, compressed per the
    /// request's negotiated coding.
    pub fn ok(route: &HttpRoute, body: Vec<u8>) -> (r: HttpResult)
        ensures
            r matches Ok(resp) && resp.spec_ok_response(*route, None, body@),
    {
        let resp = HttpResponse {
            status: 200,
            content_type: None,
            content_encoding: None,
            time_taken_ms: None,
            body,
        };
        Ok(Self::compress_response(route, resp))
    }

    /// A status-200 response around an owned text body.
    pub fn string(route: &HttpRoute, body: Vec<u8>) -> (r: HttpResult)
        ensures
            r matches Ok(resp) && resp.spec_ok_response(*route, None, body@),
    {
        Self::ok(route, body)
    }

    /// A status-200 response around a static text body.
    pub fn str(route: &HttpRoute, body: &str) -> (r: HttpResult)
        ensures
            r matches Ok(resp) && resp.spec_ok_response(*route, None, body.spec_bytes()),
    {
        let mut v: Vec<u8> = Vec::new();
        append_str(&mut v, body);
        assert(v@ =~= body.spec_bytes());
        Self::ok(route, v)
    }

    /// A status-200 response around an already-serialised JSON body:
    /// `Content-Type: application/json`, compressed per the request's
    /// negotiated coding.
    pub fn json(route: &HttpRoute, body: Vec<u8>) -> (r: HttpResult)
        ensures
            r matches Ok(resp) && resp.spec_ok_response(
                *route,
                Some("application/json".spec_bytes()),
                body@,
            ),
    {
        let mut ct: Vec<u8> = Vec::new();
        append_str(&mut ct, "application/json");
        let resp = HttpResponse {
            status: 200,
            content_type: Some(ct),
            content_encoding: None,
            time_taken_ms: None,
            body,
        };
        Ok(Self::compress_response(route, resp))
    }

    /// A status-200 response around a binary protocol body:
    /// `Content-Type: proto/bytes`.
    pub fn proto_binary(route: &HttpRoute, body: Vec<u8>) -> (r: HttpResult)
        ensures
            r matches Ok(resp) && resp.spec_ok_response(
                *route,
                Some("proto/bytes".spec_bytes()),
                body@,
            ),
    {
        let mut ct: Vec<u8> = Vec::new();
        append_str(&mut ct, "proto/bytes");
        let resp = HttpResponse {
            status: 200,
            content_type: Some(ct),
            content_encoding: None,
            time_taken_ms: None,
            body,
        };
        Ok(Self::compress_response(route, resp))
    }

    /// A status-200 JSON response around pre-serialised bytes.
    pub fn binary_or_json(route: &HttpRoute, body: Vec<u8>) -> (r: HttpResult)
        ensures
            r matches Ok(resp) && resp.spec_ok_response(
                *route,
                Some("application/json".spec_bytes()),
                body@,
            ),
    {
        Self::json(route, body)
    }

    /// A status-200 JSON response around pre-serialised bytes.
    pub fn from_vec(route: &HttpRoute, body: Vec<u8>) -> (r: HttpResult)
        ensures
            r matches Ok(resp) && resp.spec_ok_response(
                *route,
                Some("application/json".spec_bytes()),
                body@,
            ),
    {
        Self::json(route, body)
    }

    /// Apply the request's negotiated coding to an outbound response:
    /// compress the body and set the `Content-Encoding` header; a
    /// request that negotiated none passes the response through
    /// unchanged.
    pub fn compress_response(route: &HttpRoute, response: HttpResponse) -> (r: HttpResponse)
        requires
            response.content_encoding is None,
        ensures
            r.status == response.status,
            r.content_type == response.content_type,
            r.time_taken_ms == response.time_taken_ms,
            r.content_encoding == route.accept_encoding,
            r.body@ == spec_compressed_body(route.accept_encoding, response.body@),
            (match route.accept_encoding {
                Some(e) => decoded_with(e, r.body@) == Some(response.body@),
                None => true,
            }),
    {
        match route.accept_encoding {
            Some(enc) => {
                let encoded = encode_body(enc, &response.body);
                HttpResponse {
                    content_encoding: Some(enc),
                    body: encoded,
                    status: response.status,
                    content_type: response.content_type,
                    time_taken_ms: response.time_taken_ms,
                }
            },
            None => response,
        }
    }

    /// Stamp the elapsed-time header field.
    pub fn with_time_taken(self, elapsed_ms: u64) -> (r: HttpResponse)
        ensures
            r.status == self.status,
            r.content_type == self.content_type,
            r.content_encoding == self.content_encoding,
            r.body == self.body,
            r.time_taken_ms == Some(elapsed_ms),
    {
        HttpResponse { time_taken_ms: Some(elapsed_ms), ..self }
    }
}

impl ApiError {
    /// The one response of this failure: its status and its body,
    /// built from the variant's reason.
    pub fn into_response(self) -> (r: HttpResponse)
        ensures
            r.spec_plain(spec_error_status(self), spec_error_body(self)),
    {
        let (status, prefix): (u16, &'static str) = match &self {
            ApiError::InternalServerError(_) => (500, "Error in serving request ==> "),
            ApiError::NotFound(_) => (404, "Not found: "),
            ApiError::Forbidden(_) => (403, "Forbidden: "),
            ApiError::BadRequest(_) => (400, "Bad Request: "),
            ApiError::NoContent(_) => (204, "No Content: "),
        };
        let reason: &Vec<u8> = match &self {
            ApiError::InternalServerError(m) => m,
            ApiError::NotFound(m) => m,
            ApiError::Forbidden(m) => m,
            ApiError::BadRequest(m) => m,
            ApiError::NoContent(m) => m,
        };
        let mut body: Vec<u8> = Vec::new();
        append_str(&mut body, prefix);
        append_bytes(&mut body, reason);
        assert(body@ == spec_error_body(self));
        HttpResponse::plain(status, body)
    }
}

} // verus!
