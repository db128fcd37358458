//! The interface a message type offers to the transcoding layer.
//!
//! A message type is supplied per endpoint; the layer is generic over it.
//! Its protobuf and JSON codecs are external collaborators, so the traits
//! here state their behaviour through two spec-level functions each — the
//! bytes a model encodes to, and the model some bytes decode to — and every
//! executable method is bound to them.

use vstd::prelude::*;

verus! {

/// Why a protobuf decode failed: the codec's diagnostic, kept verbatim.
#[derive(Debug)]
pub struct DecodeFailure {
    /// Diagnostic text reported by the codec.
    pub detail: String,
}

/// Why an encode failed: the codec's diagnostic, kept verbatim. This is a
/// last-resort path, not expected of a well-behaved message type.
#[derive(Debug)]
pub struct EncodeFailure {
    /// Diagnostic text reported by the codec.
    pub detail: String,
}

/// A failure of the JSON decode path. It carries the HTTP status code and
/// message that the JSON codec assigns, to be passed through verbatim.
#[derive(Debug)]
pub struct JsonFailure {
    /// The status code the JSON codec assigns to this failure.
    pub status: u16,
    /// Diagnostic text reported by the JSON codec.
    pub detail: String,
}

/// A message type bound to a protobuf codec.
///
/// `spec_wire` and `spec_parsed` stand for what the codec does; whether the
/// codec round-trips (`spec_parsed(spec_wire(v)) == Some(v)`) is a property
/// of the codec, assumed where a law needs it, never of this layer.
pub trait Message: View + Sized {
    /// The bytes that encoding a message with model `v` produces.
    spec fn spec_wire(v: Self::V) -> Seq<u8>;

    /// The model that decoding `bytes` yields, or `None` where the codec
    /// rejects them.
    spec fn spec_parsed(bytes: Seq<u8>) -> Option<Self::V>;

    /// The model of the default message.
    spec fn spec_default() -> Self::V;

    /// The default message.
    fn default_message() -> (r: Self)
        ensures
            r@ == Self::spec_default(),
    ;

    /// Encode the message. The contract allows failure, but a failure is
    /// only possible for pathological message implementations.
    fn encode_bytes(&self) -> (r: Result<Vec<u8>, EncodeFailure>)
        ensures
            r matches Ok(bytes) ==> bytes@ == Self::spec_wire(self@),
    ;

    /// Decode a message from a fully buffered body. Succeeds exactly on the
    /// bytes the codec accepts, and then yields the decoded model.
    fn decode_bytes(bytes: &[u8]) -> (r: Result<Self, DecodeFailure>)
        ensures
            match Self::spec_parsed(bytes@) {
                Some(v) => r matches Ok(m) && m@ == v,
                None => r is Err,
            },
    ;
}

/// A message type that also has a JSON representation, for the negotiating
/// paths. The JSON codec is an external collaborator like the protobuf one.
pub trait JsonMessage: View + Sized {
    /// The JSON bytes that serializing a message with model `v` produces.
    spec fn spec_json(v: Self::V) -> Seq<u8>;

    /// The model that JSON-deserializing `bytes` yields, or `None` where
    /// the JSON codec rejects them.
    spec fn spec_json_parsed(bytes: Seq<u8>) -> Option<Self::V>;

    /// Serialize the message to JSON.
    fn to_json_bytes(&self) -> (r: Vec<u8>)
        ensures
            r@ == Self::spec_json(self@),
    ;

    /// Deserialize a message from a fully buffered JSON body. A failure
    /// carries the status code and message the JSON codec assigns.
    fn from_json_bytes(bytes: &[u8]) -> (r: Result<Self, JsonFailure>)
        ensures
            match Self::spec_json_parsed(bytes@) {
                Some(v) => r matches Ok(m) && m@ == v,
                None => r is Err,
            },
    ;
}

} // verus!
