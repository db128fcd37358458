//! Plain models of the HTTP exchange: the outbound response this layer
//! builds, and the outcome of buffering an inbound body stream.
//!
//! The host framework owns the wire types; this layer only ever reads a
//! header value, a status code and a body, so those are what the models
//! hold.

use vstd::prelude::*;

verus! {

/// Buffering the inbound body stream failed (transport failure, size-limit
/// violation, client disconnect). The stream itself stays with the host
/// framework; this layer only learns the outcome.
pub struct BodyError;

/// An outbound response: status code, optional `Content-Type` header, body.
/// Constructed fresh per call; immutable once built.
pub struct HttpResponse {
    /// The HTTP status code.
    pub status: u16,
    /// The `Content-Type` header value, where one is set.
    pub content_type: Option<String>,
    /// The response body.
    pub body: Vec<u8>,
}

/// The model of an outbound response.
pub struct ResponseModel {
    /// The HTTP status code.
    pub status: u16,
    /// The `Content-Type` header value, where one is set.
    pub content_type: Option<Seq<char>>,
    /// The response body.
    pub body: Seq<u8>,
}

impl View for HttpResponse {
    type V = ResponseModel;

    open spec fn view(&self) -> ResponseModel {
        ResponseModel {
            status: self.status,
            content_type: match self.content_type {
                Some(ct) => Some(ct@),
                None => None,
            },
            body: self.body@,
        }
    }
}

/// The bytes of a human-readable response message.
pub open spec fn spec_text_body(s: Seq<char>) -> Seq<u8> {
    vstd::utf8::encode_utf8(s)
}

/// The view of a buffered body outcome: the bytes, or the buffering error.
pub open spec fn body_view(body: Result<Vec<u8>, BodyError>) -> Result<Seq<u8>, BodyError> {
    match body {
        Ok(b) => Ok(b@),
        Err(e) => Err(e),
    }
}

} // verus!
