//! The protobuf-only path: strict `Content-Type` validation, decoding of a
//! buffered body, and the protobuf response builder.
//!
//! Extraction runs in order: the header is checked first, the body outcome
//! is examined only under an accepted token, and the buffered bytes are fed
//! to the codec last. `spec_protobuf_extract` is that decision as one spec
//! function, and every executable step is bound to it.

use vstd::prelude::*;
use vstd::string::StrSliceExecFns;
use vstd::string::StringExecFns;

use crate::content_type::accepts_protobuf;
use crate::content_type::classify;
use crate::content_type::header_view;
use crate::content_type::protobuf_media_type;
use crate::content_type::spec_classify;
use crate::content_type::spec_protobuf_media_type;
use crate::content_type::ContentTypeToken;
use crate::http::body_view;
use crate::http::spec_text_body;
use crate::http::BodyError;
use crate::http::HttpResponse;
use crate::http::ResponseModel;
use crate::message::EncodeFailure;
use crate::message::Message;

verus! {

/// Possible reasons why a request could be rejected on the protobuf path.
pub enum ProtobufRejection {
    /// Decoding the body as protobuf failed.
    ProtobufDecodeError(crate::message::DecodeFailure),

    /// Buffering the request body failed.
    FailedToBufferBody,

    /// The protobuf `Content-Type` header is missing or unsupported.
    MissingProtobufContentType,
}

impl ProtobufRejection {
    /// The response each rejection turns into: its status code and its
    /// short, stable, human-readable message.
    pub open spec fn spec_response(self) -> ResponseModel {
        match self {
            ProtobufRejection::ProtobufDecodeError(_) => ResponseModel {
                status: 400,
                content_type: None,
                body: spec_text_body("Protobuf decoding error"@),
            },
            ProtobufRejection::FailedToBufferBody => ResponseModel {
                status: 500,
                content_type: None,
                body: spec_text_body("Error reading request body"@),
            },
            ProtobufRejection::MissingProtobufContentType => ResponseModel {
                status: 415,
                content_type: None,
                body: spec_text_body("Missing 'content-type: application/protobuf' header"@),
            },
        }
    }

    /// Turn the rejection into its terminal response.
    pub fn into_response(self) -> (r: HttpResponse)
        ensures
            r@ == self.spec_response(),
    {
        match self {
            ProtobufRejection::ProtobufDecodeError(_) => HttpResponse {
                status: 400,
                content_type: None,
                body: "Protobuf decoding error".as_bytes_vec(),
            },
            ProtobufRejection::FailedToBufferBody => HttpResponse {
                status: 500,
                content_type: None,
                body: "Error reading request body".as_bytes_vec(),
            },
            ProtobufRejection::MissingProtobufContentType => HttpResponse {
                status: 415,
                content_type: None,
                body: "Missing 'content-type: application/protobuf' header".as_bytes_vec(),
            },
        }
    }
}

/// Protobuf extractor / response.
///
/// As an extractor it decodes a request body into a [`Message`] type, once
/// the host framework has handed over the header value and the buffered
/// body. As a response it encodes the message and carries the canonical
/// protobuf `Content-Type`.
pub struct Protobuf<T>(pub T);

/// The view of an encode outcome: the bytes, or the codec's diagnostic.
pub open spec fn encoded_view(encoded: Result<Vec<u8>, EncodeFailure>) -> Result<Seq<u8>, Seq<char>> {
    match encoded {
        Ok(bytes) => Ok(bytes@),
        Err(f) => Err(f.detail@),
    }
}

/// The protobuf response built from an encode outcome: on success status
/// 200, the canonical protobuf `Content-Type` (never an alias, whatever
/// token the request used) and the encoded bytes; on failure status 500
/// with a diagnostic body and no `Content-Type`.
pub open spec fn spec_protobuf_response(encoded: Result<Seq<u8>, Seq<char>>) -> ResponseModel {
    match encoded {
        Ok(bytes) => ResponseModel {
            status: 200,
            content_type: Some(spec_protobuf_media_type()),
            body: bytes,
        },
        Err(detail) => ResponseModel {
            status: 500,
            content_type: None,
            body: spec_text_body("protobuf encoding error: "@ + detail),
        },
    }
}

/// Build the protobuf response for an encode outcome.
pub fn encoded_response(encoded: Result<Vec<u8>, EncodeFailure>) -> (r: HttpResponse)
    ensures
        r@ == spec_protobuf_response(encoded_view(encoded)),
{
    match encoded {
        Ok(bytes) => HttpResponse {
            status: 200,
            content_type: Some(String::from_str(protobuf_media_type())),
            body: bytes,
        },
        Err(f) => {
            let msg = String::from_str("protobuf encoding error: ").concat(f.detail.as_str());
            HttpResponse { status: 500, content_type: None, body: msg.as_str().as_bytes_vec() }
        },
    }
}

/// First step of extraction, before the body is read: accept exactly the
/// protobuf tokens, reject everything else (absence included) so that the
/// body is never consumed under a wrong `Content-Type`.
pub fn check_protobuf_content_type(value: Option<&str>) -> (r: Result<(), ProtobufRejection>)
    ensures
        accepts_protobuf(spec_classify(header_view(value))) <==> r is Ok,
        r matches Err(rej) ==> rej is MissingProtobufContentType,
{
    match classify(value) {
        ContentTypeToken::ProtobufCanonical => Ok(()),
        ContentTypeToken::ProtobufAlias => Ok(()),
        ContentTypeToken::Json => Err(ProtobufRejection::MissingProtobufContentType),
        ContentTypeToken::Unrecognized => Err(ProtobufRejection::MissingProtobufContentType),
    }
}

/// The outcome of the protobuf extraction decision, at the level of models.
pub enum ProtobufOutcome<V> {
    /// The body decoded to a message with this model.
    Decoded(V),
    /// The codec rejected the body.
    DecodeFailed,
    /// The body stream failed before the codec ever ran.
    BufferingFailed,
    /// The `Content-Type` header was missing or unsupported; the body was
    /// never read.
    UnsupportedContentType,
}

/// The whole protobuf extraction decision: header check first, then the
/// body outcome, then the codec.
pub open spec fn spec_protobuf_extract<T: Message>(
    content_type: Option<Seq<char>>,
    body: Result<Seq<u8>, BodyError>,
) -> ProtobufOutcome<T::V> {
    if !accepts_protobuf(spec_classify(content_type)) {
        ProtobufOutcome::UnsupportedContentType
    } else {
        match body {
            Err(_) => ProtobufOutcome::BufferingFailed,
            Ok(bytes) => match T::spec_parsed(bytes) {
                Some(v) => ProtobufOutcome::Decoded(v),
                None => ProtobufOutcome::DecodeFailed,
            },
        }
    }
}

/// How an extraction result realizes a modelled outcome, rejection by
/// rejection.
pub open spec fn protobuf_outcome_matches<T: Message>(
    r: Result<Protobuf<T>, ProtobufRejection>,
    outcome: ProtobufOutcome<T::V>,
) -> bool {
    match outcome {
        ProtobufOutcome::Decoded(v) => r matches Ok(p) && p.0@ == v,
        ProtobufOutcome::DecodeFailed => r matches Err(rej) && rej is ProtobufDecodeError,
        ProtobufOutcome::BufferingFailed => r matches Err(rej) && rej is FailedToBufferBody,
        ProtobufOutcome::UnsupportedContentType => r matches Err(rej)
            && rej is MissingProtobufContentType,
    }
}

impl<T: Message> Protobuf<T> {
    /// Decode a fully buffered body. Succeeds exactly on the bytes the
    /// codec accepts; any codec failure becomes `ProtobufDecodeError`.
    pub fn from_bytes(bytes: &[u8]) -> (r: Result<Protobuf<T>, ProtobufRejection>)
        ensures
            match T::spec_parsed(bytes@) {
                Some(v) => r matches Ok(p) && p.0@ == v,
                None => r matches Err(rej) && rej is ProtobufDecodeError,
            },
    {
        match T::decode_bytes(bytes) {
            Ok(m) => Ok(Protobuf(m)),
            Err(f) => Err(ProtobufRejection::ProtobufDecodeError(f)),
        }
    }

    /// The whole extraction, once the host framework has buffered the body
    /// (or failed to): realizes `spec_protobuf_extract`.
    pub fn extract(content_type: Option<&str>, body: Result<Vec<u8>, BodyError>) -> (r: Result<
        Protobuf<T>,
        ProtobufRejection,
    >)
        ensures
            protobuf_outcome_matches(
                r,
                spec_protobuf_extract::<T>(header_view(content_type), body_view(body)),
            ),
    {
        match check_protobuf_content_type(content_type) {
            Err(rej) => Err(rej),
            Ok(()) => match body {
                Err(_) => Err(ProtobufRejection::FailedToBufferBody),
                Ok(buf) => Self::from_bytes(buf.as_slice()),
            },
        }
    }

    /// Encode the message into a response: status 200 and the canonical
    /// protobuf `Content-Type` on success, status 500 with a diagnostic
    /// body on an encode failure.
    pub fn into_response(self) -> (r: HttpResponse)
        ensures
            ({
                ||| r@ == spec_protobuf_response(Ok(T::spec_wire(self.0@)))
                ||| exists|detail: Seq<char>| r@ == spec_protobuf_response(Err(detail))
            }),
    {
        let encoded = self.0.encode_bytes();
        let ghost ev = encoded_view(encoded);
        let r = encoded_response(encoded);
        proof {
            match ev {
                Err(detail) => {
                    assert(r@ == spec_protobuf_response(Err(detail)));
                },
                Ok(_) => {},
            }
        }
        r
    }
}

/// Law: decoding a request with any accepted protobuf token and the bytes
/// the codec produced for a message yields that message back, wherever the
/// codec round-trips it.
pub proof fn lemma_protobuf_round_trip<T: Message>(v: T::V, content_type: Seq<char>)
    requires
        accepts_protobuf(spec_classify(Some(content_type))),
        T::spec_parsed(T::spec_wire(v)) == Some(v),
    ensures
        spec_protobuf_extract::<T>(Some(content_type), Ok(T::spec_wire(v)))
            == ProtobufOutcome::<T::V>::Decoded(v),
{
}

/// Law: an empty body under a valid protobuf token is not an error: it
/// decodes to the default message, wherever the codec decodes an empty
/// buffer to the default.
pub proof fn lemma_protobuf_empty_body<T: Message>(content_type: Seq<char>)
    requires
        accepts_protobuf(spec_classify(Some(content_type))),
        T::spec_parsed(Seq::empty()) == Some(T::spec_default()),
    ensures
        spec_protobuf_extract::<T>(Some(content_type), Ok(Seq::empty()))
            == ProtobufOutcome::<T::V>::Decoded(T::spec_default()),
{
}

/// Law: bytes the codec rejects, under a valid protobuf token, are a decode
/// failure, and every decode-failure rejection answers with status 400 and
/// exactly the body `Protobuf decoding error`.
pub proof fn lemma_protobuf_decode_error<T: Message>(
    content_type: Seq<char>,
    bytes: Seq<u8>,
    rej: ProtobufRejection,
)
    requires
        accepts_protobuf(spec_classify(Some(content_type))),
        T::spec_parsed(bytes) is None,
        rej is ProtobufDecodeError,
    ensures
        spec_protobuf_extract::<T>(Some(content_type), Ok(bytes))
            == ProtobufOutcome::<T::V>::DecodeFailed,
        rej.spec_response().status == 400,
        rej.spec_response().content_type is None,
        rej.spec_response().body == spec_text_body("Protobuf decoding error"@),
{
}

/// Law: a request without a `Content-Type` header is rejected whatever its
/// body, and the rejection answers with status 415 and exactly the body
/// `Missing 'content-type: application/protobuf' header`.
pub proof fn lemma_protobuf_missing_content_type<T: Message>(
    body: Result<Seq<u8>, BodyError>,
    rej: ProtobufRejection,
)
    requires
        rej is MissingProtobufContentType,
    ensures
        spec_protobuf_extract::<T>(None, body) == ProtobufOutcome::<T::V>::UnsupportedContentType,
        rej.spec_response().status == 415,
        rej.spec_response().content_type is None,
        rej.spec_response().body == spec_text_body(
            "Missing 'content-type: application/protobuf' header"@,
        ),
{
}

/// Law: a successful protobuf response always carries status 200 and the
/// canonical protobuf `Content-Type` — never an alias — whatever the bytes.
pub proof fn lemma_protobuf_response_headers(bytes: Seq<u8>)
    ensures
        spec_protobuf_response(Ok(bytes)).status == 200,
        spec_protobuf_response(Ok(bytes)).content_type == Some(spec_protobuf_media_type()),
        spec_protobuf_response(Ok(bytes)).body == bytes,
{
}

} // verus!
