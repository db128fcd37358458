//! The negotiating path: a combined extractor that picks between protobuf
//! and JSON decoding from the `Content-Type` header, and a response builder
//! that picks between protobuf and JSON encoding from the `Accept` header.
//!
//! The dispatch is strict, not a fallback chain: exactly one decode path
//! runs, and a request whose `Content-Type` matches neither family is
//! rejected before its body is ever read.

use vstd::prelude::*;
use vstd::string::StrSliceExecFns;

use crate::content_type::accepts_protobuf;
use crate::content_type::classify;
use crate::content_type::header_view;
use crate::content_type::json_media_type;
use crate::content_type::spec_classify;
use crate::content_type::spec_json_media_type;
use crate::content_type::ContentTypeToken;
use crate::http::body_view;
use crate::http::spec_text_body;
use crate::http::BodyError;
use crate::http::HttpResponse;
use crate::http::ResponseModel;
use crate::message::JsonFailure;
use crate::message::JsonMessage;
use crate::message::Message;
use crate::protobuf::spec_protobuf_response;
use crate::protobuf::Protobuf;
use crate::protobuf::ProtobufRejection;

verus! {

/// Possible reasons why a request could be rejected on the negotiating
/// path.
pub enum ProtoJsonRejection {
    /// A protobuf-path rejection, passed through unchanged.
    ProtobufRejection(ProtobufRejection),

    /// A JSON-path failure; its status code and message are the JSON
    /// codec's own, passed through verbatim.
    JsonRejection(JsonFailure),

    /// The `Content-Type` header is missing or has an unsupported value.
    MissingContentType,
}

impl ProtoJsonRejection {
    /// The response each rejection turns into. Protobuf rejections keep
    /// their own statuses and messages; JSON failures pass through the
    /// JSON codec's status and message verbatim.
    pub open spec fn spec_response(self) -> ResponseModel {
        match self {
            ProtoJsonRejection::ProtobufRejection(rej) => rej.spec_response(),
            ProtoJsonRejection::JsonRejection(f) => ResponseModel {
                status: f.status,
                content_type: None,
                body: spec_text_body(f.detail@),
            },
            ProtoJsonRejection::MissingContentType => ResponseModel {
                status: 415,
                content_type: None,
                body: spec_text_body(
                    "Missing 'content-type' header that has the value 'application/json' or 'application/protobuf'"@,
                ),
            },
        }
    }

    /// Turn the rejection into its terminal response.
    pub fn into_response(self) -> (r: HttpResponse)
        ensures
            r@ == self.spec_response(),
    {
        match self {
            ProtoJsonRejection::ProtobufRejection(rej) => rej.into_response(),
            ProtoJsonRejection::JsonRejection(f) => HttpResponse {
                status: f.status,
                content_type: None,
                body: f.detail.as_str().as_bytes_vec(),
            },
            ProtoJsonRejection::MissingContentType => HttpResponse {
                status: 415,
                content_type: None,
                body: "Missing 'content-type' header that has the value 'application/json' or 'application/protobuf'".as_bytes_vec(),
            },
        }
    }
}

/// JSON extractor / response over a message type's JSON codec.
///
/// It stands for the external JSON collaborator: the negotiating extractor
/// delegates to it on `Content-Type: application/json`, and converts to and
/// from it freely.
pub struct Json<T>(pub T);

/// The JSON response for a serialized body: status 200 and the JSON
/// `Content-Type`.
pub open spec fn spec_json_response(body: Seq<u8>) -> ResponseModel {
    ResponseModel { status: 200, content_type: Some(spec_json_media_type()), body }
}

impl<T: JsonMessage> Json<T> {
    /// Decode a fully buffered JSON body. Succeeds exactly on the bytes
    /// the JSON codec accepts; a failure keeps the codec's own status and
    /// message.
    pub fn from_bytes(bytes: &[u8]) -> (r: Result<Json<T>, JsonFailure>)
        ensures
            match T::spec_json_parsed(bytes@) {
                Some(v) => r matches Ok(j) && j.0@ == v,
                None => r is Err,
            },
    {
        match T::from_json_bytes(bytes) {
            Ok(m) => Ok(Json(m)),
            Err(f) => Err(f),
        }
    }

    /// Serialize the message into a JSON response.
    pub fn into_response(self) -> (r: HttpResponse)
        ensures
            r@ == spec_json_response(T::spec_json(self.0@)),
    {
        let body = self.0.to_json_bytes();
        HttpResponse {
            status: 200,
            content_type: Some(String::from_str(json_media_type())),
            body,
        }
    }
}

/// Negotiating extractor / response builder.
///
/// As an extractor it decodes a request body as protobuf or as JSON,
/// depending on the `Content-Type` header. On output,
/// [`ProtoJson::infer_response`] encodes it as protobuf or as JSON,
/// depending on the `Accept` header.
pub struct ProtoJson<T>(pub T);

/// The outcome of the negotiating extraction decision, at the level of
/// models.
pub enum ProtoJsonOutcome<V> {
    /// The body decoded to a message with this model, on whichever path.
    Decoded(V),
    /// The protobuf codec rejected the body.
    ProtobufDecodeFailed,
    /// The JSON codec rejected the body.
    JsonDecodeFailed,
    /// The body stream failed on the protobuf path.
    BufferingFailed,
    /// The body stream failed on the JSON path.
    JsonBufferingFailed,
    /// The `Content-Type` header matched neither family; the body was
    /// never read.
    UnsupportedContentType,
}

/// The whole negotiating extraction decision: classify the `Content-Type`
/// once, then run exactly one of the two decode paths.
pub open spec fn spec_protojson_extract<T: Message + JsonMessage>(
    content_type: Option<Seq<char>>,
    body: Result<Seq<u8>, BodyError>,
) -> ProtoJsonOutcome<T::V> {
    if spec_classify(content_type) is Json {
        match body {
            Err(_) => ProtoJsonOutcome::JsonBufferingFailed,
            Ok(bytes) => match T::spec_json_parsed(bytes) {
                Some(v) => ProtoJsonOutcome::Decoded(v),
                None => ProtoJsonOutcome::JsonDecodeFailed,
            },
        }
    } else if accepts_protobuf(spec_classify(content_type)) {
        match body {
            Err(_) => ProtoJsonOutcome::BufferingFailed,
            Ok(bytes) => match T::spec_parsed(bytes) {
                Some(v) => ProtoJsonOutcome::Decoded(v),
                None => ProtoJsonOutcome::ProtobufDecodeFailed,
            },
        }
    } else {
        ProtoJsonOutcome::UnsupportedContentType
    }
}

/// How a negotiating extraction result realizes a modelled outcome.
pub open spec fn protojson_outcome_matches<T: Message + JsonMessage>(
    r: Result<ProtoJson<T>, ProtoJsonRejection>,
    outcome: ProtoJsonOutcome<T::V>,
) -> bool {
    match outcome {
        ProtoJsonOutcome::Decoded(v) => r matches Ok(pj) && pj.0@ == v,
        ProtoJsonOutcome::ProtobufDecodeFailed => r matches Err(
            ProtoJsonRejection::ProtobufRejection(rej),
        ) && rej is ProtobufDecodeError,
        ProtoJsonOutcome::JsonDecodeFailed => r matches Err(ProtoJsonRejection::JsonRejection(_)),
        ProtoJsonOutcome::BufferingFailed => r matches Err(
            ProtoJsonRejection::ProtobufRejection(rej),
        ) && rej is FailedToBufferBody,
        ProtoJsonOutcome::JsonBufferingFailed => r matches Err(
            ProtoJsonRejection::JsonRejection(f),
        ) && f.status == 500,
        ProtoJsonOutcome::UnsupportedContentType => r matches Err(rej)
            && rej is MissingContentType,
    }
}

impl<T: Message + JsonMessage> ProtoJson<T> {
    /// Whether a request with this `Content-Type` needs its body read at
    /// all: it does exactly when one of the two decode paths will run.
    pub fn wants_body(content_type: Option<&str>) -> (r: bool)
        ensures
            r == (spec_classify(header_view(content_type)) is Json || accepts_protobuf(
                spec_classify(header_view(content_type)),
            )),
    {
        match classify(content_type) {
            ContentTypeToken::Json => true,
            ContentTypeToken::ProtobufCanonical => true,
            ContentTypeToken::ProtobufAlias => true,
            ContentTypeToken::Unrecognized => false,
        }
    }

    /// The whole negotiating extraction, once the host framework has
    /// buffered the body (or failed to; or never read it, for a request
    /// that [`ProtoJson::wants_body`] refuses): realizes
    /// `spec_protojson_extract`.
    pub fn from_body(content_type: Option<&str>, body: Result<Vec<u8>, BodyError>) -> (r: Result<
        ProtoJson<T>,
        ProtoJsonRejection,
    >)
        ensures
            protojson_outcome_matches(
                r,
                spec_protojson_extract::<T>(header_view(content_type), body_view(body)),
            ),
    {
        match classify(content_type) {
            ContentTypeToken::Json => match body {
                Err(_) => Err(
                    ProtoJsonRejection::JsonRejection(
                        JsonFailure {
                            status: 500,
                            detail: String::from_str("Error reading request body"),
                        },
                    ),
                ),
                Ok(buf) => match Json::<T>::from_bytes(buf.as_slice()) {
                    Ok(j) => Ok(ProtoJson(j.0)),
                    Err(f) => Err(ProtoJsonRejection::JsonRejection(f)),
                },
            },
            ContentTypeToken::ProtobufCanonical | ContentTypeToken::ProtobufAlias => {
                match Protobuf::<T>::extract(content_type, body) {
                    Ok(p) => Ok(ProtoJson(p.0)),
                    Err(rej) => Err(ProtoJsonRejection::ProtobufRejection(rej)),
                }
            },
            ContentTypeToken::Unrecognized => Err(ProtoJsonRejection::MissingContentType),
        }
    }

    /// Attempt to construct a response based on the `accept` header value:
    /// a JSON response on exactly `application/json`, a protobuf response
    /// on any of the three protobuf tokens, and `None` otherwise.
    pub fn try_infer_response(self, accept: Option<&str>) -> (r: Option<HttpResponse>)
        ensures
            spec_classify(header_view(accept)) is Json ==> (r matches Some(resp) && resp@
                == spec_json_response(T::spec_json(self.0@))),
            accepts_protobuf(spec_classify(header_view(accept))) ==> (r matches Some(resp) && ({
                ||| resp@ == spec_protobuf_response(Ok(T::spec_wire(self.0@)))
                ||| exists|detail: Seq<char>| resp@ == spec_protobuf_response(Err(detail))
            })),
            !(spec_classify(header_view(accept)) is Json) && !accepts_protobuf(
                spec_classify(header_view(accept)),
            ) ==> (r is None),
    {
        match classify(accept) {
            ContentTypeToken::Json => Some(Json(self.0).into_response()),
            ContentTypeToken::ProtobufCanonical | ContentTypeToken::ProtobufAlias => Some(
                Protobuf(self.0).into_response(),
            ),
            ContentTypeToken::Unrecognized => None,
        }
    }

    /// Construct a response based on the `accept` header value.
    ///
    /// If the header is not set or not recognized, a status 400 response
    /// with the literal missing-accept message is returned; negotiation
    /// itself never fails.
    pub fn infer_response(self, accept: Option<&str>) -> (r: HttpResponse)
        ensures
            spec_classify(header_view(accept)) is Json ==> r@ == spec_json_response(
                T::spec_json(self.0@),
            ),
            accepts_protobuf(spec_classify(header_view(accept))) ==> ({
                ||| r@ == spec_protobuf_response(Ok(T::spec_wire(self.0@)))
                ||| exists|detail: Seq<char>| r@ == spec_protobuf_response(Err(detail))
            }),
            !(spec_classify(header_view(accept)) is Json) && !accepts_protobuf(
                spec_classify(header_view(accept)),
            ) ==> r@ == (ResponseModel {
                status: 400,
                content_type: None,
                body: spec_text_body(
                    "Missing 'accept' header with value 'application/json' or 'application/protobuf'"@,
                ),
            }),
    {
        match self.try_infer_response(accept) {
            Some(r) => r,
            None => HttpResponse {
                status: 400,
                content_type: None,
                body: "Missing 'accept' header with value 'application/json' or 'application/protobuf'".as_bytes_vec(),
            },
        }
    }
}

impl<T> From<Json<T>> for ProtoJson<T> {
    fn from(x: Json<T>) -> (r: ProtoJson<T>) {
        ProtoJson(x.0)
    }
}

impl<T> vstd::std_specs::convert::FromSpecImpl<Json<T>> for ProtoJson<T> {
    open spec fn obeys_from_spec() -> bool {
        true
    }

    open spec fn from_spec(v: Json<T>) -> ProtoJson<T> {
        ProtoJson(v.0)
    }
}

impl<T> From<ProtoJson<T>> for Json<T> {
    fn from(x: ProtoJson<T>) -> (r: Json<T>) {
        Json(x.0)
    }
}

impl<T> vstd::std_specs::convert::FromSpecImpl<ProtoJson<T>> for Json<T> {
    open spec fn obeys_from_spec() -> bool {
        true
    }

    open spec fn from_spec(v: ProtoJson<T>) -> Json<T> {
        Json(v.0)
    }
}

impl<T> From<Protobuf<T>> for ProtoJson<T> {
    fn from(x: Protobuf<T>) -> (r: ProtoJson<T>) {
        ProtoJson(x.0)
    }
}

impl<T> vstd::std_specs::convert::FromSpecImpl<Protobuf<T>> for ProtoJson<T> {
    open spec fn obeys_from_spec() -> bool {
        true
    }

    open spec fn from_spec(v: Protobuf<T>) -> ProtoJson<T> {
        ProtoJson(v.0)
    }
}

impl<T> From<ProtoJson<T>> for Protobuf<T> {
    fn from(x: ProtoJson<T>) -> (r: Protobuf<T>) {
        Protobuf(x.0)
    }
}

impl<T> vstd::std_specs::convert::FromSpecImpl<ProtoJson<T>> for Protobuf<T> {
    open spec fn obeys_from_spec() -> bool {
        true
    }

    open spec fn from_spec(v: ProtoJson<T>) -> Protobuf<T> {
        Protobuf(v.0)
    }
}

/// Law: negotiation agrees across formats. A JSON request and a protobuf
/// request whose bodies decode to the same model yield the same message,
/// whichever accepted tokens they carry.
pub proof fn lemma_negotiation_agreement<T: Message + JsonMessage>(
    v: T::V,
    json_bytes: Seq<u8>,
    protobuf_bytes: Seq<u8>,
    protobuf_token: Seq<char>,
)
    requires
        T::spec_json_parsed(json_bytes) == Some(v),
        T::spec_parsed(protobuf_bytes) == Some(v),
        accepts_protobuf(spec_classify(Some(protobuf_token))),
    ensures
        spec_protojson_extract::<T>(Some(spec_json_media_type()), Ok(json_bytes))
            == ProtoJsonOutcome::<T::V>::Decoded(v),
        spec_protojson_extract::<T>(Some(protobuf_token), Ok(protobuf_bytes))
            == ProtoJsonOutcome::<T::V>::Decoded(v),
{
    crate::content_type::lemma_media_types_distinct();
}

/// Law: the round trip through the negotiating path, for each format
/// independently: a body the codec produced for a message decodes back to
/// it, wherever that codec round-trips.
pub proof fn lemma_protojson_round_trip<T: Message + JsonMessage>(v: T::V)
    requires
        T::spec_json_parsed(T::spec_json(v)) == Some(v),
        T::spec_parsed(T::spec_wire(v)) == Some(v),
    ensures
        spec_protojson_extract::<T>(Some(spec_json_media_type()), Ok(T::spec_json(v)))
            == ProtoJsonOutcome::<T::V>::Decoded(v),
        spec_protojson_extract::<T>(Some("application/protobuf"@), Ok(T::spec_wire(v)))
            == ProtoJsonOutcome::<T::V>::Decoded(v),
{
    crate::content_type::lemma_media_types_distinct();
}

/// Law: a request whose `Content-Type` matches neither family — the header
/// absent included — is rejected without its body being read, and the
/// rejection answers with status 415 and exactly the combined message.
pub proof fn lemma_protojson_missing_content_type<T: Message + JsonMessage>(
    content_type: Option<Seq<char>>,
    body: Result<Seq<u8>, BodyError>,
    rej: ProtoJsonRejection,
)
    requires
        !(spec_classify(content_type) is Json),
        !accepts_protobuf(spec_classify(content_type)),
        rej is MissingContentType,
    ensures
        spec_protojson_extract::<T>(content_type, body)
            == ProtoJsonOutcome::<T::V>::UnsupportedContentType,
        rej.spec_response().status == 415,
        rej.spec_response().content_type is None,
        rej.spec_response().body == spec_text_body(
            "Missing 'content-type' header that has the value 'application/json' or 'application/protobuf'"@,
        ),
{
}

} // verus!
