//! Content negotiation between protocol-buffer and JSON request/response
//! bodies, driven by the HTTP `Content-Type` and `Accept` headers.
//!
//! The library classifies header values against a fixed registry of media
//! types, dispatches decoding of a buffered request body to either a
//! protobuf codec or a JSON codec, and builds responses whose status code,
//! `Content-Type` header and body are pinned down by contracts. The codecs
//! themselves are external collaborators, reached through the traits of
//! [`message`]; the host framework keeps the wire types and the body
//! stream, and hands this library plain values.

pub mod content_type;
pub mod http;
pub mod message;
pub mod protobuf;
pub mod protojson;
pub mod test_message;

pub use content_type::classify;
pub use content_type::ContentTypeToken;
pub use http::BodyError;
pub use http::HttpResponse;
pub use message::JsonMessage;
pub use message::Message;
pub use protobuf::Protobuf;
pub use protobuf::ProtobufRejection;
pub use protojson::Json;
pub use protojson::ProtoJson;
pub use protojson::ProtoJsonRejection;
pub use test_message::TestMessage;
