//! Registry of the accepted media types and classification of header values.
//!
//! Classification is a case-sensitive exact match against a fixed allow-list:
//! no wildcard or parameter handling, so `application/json; charset=utf-8` is
//! not recognized as JSON.

use vstd::prelude::*;
use vstd::string::StrSliceExecFns;

verus! {

/// Classification of a `Content-Type` or `Accept` header value.
#[derive(Clone, Copy, PartialEq, Eq, Debug, Structural)]
pub enum ContentTypeToken {
    /// Exactly `application/protobuf`, the canonical protobuf media type.
    ProtobufCanonical,
    /// One of the accepted protobuf aliases: `application/x-protobuf` or
    /// `application/vnd.google.protobuf`.
    ProtobufAlias,
    /// Exactly `application/json`.
    Json,
    /// Any other value.
    Unrecognized,
}

/// The canonical protobuf media type, the one every protobuf response carries.
pub open spec fn spec_protobuf_media_type() -> Seq<char> {
    "application/protobuf"@
}

/// The JSON media type.
pub open spec fn spec_json_media_type() -> Seq<char> {
    "application/json"@
}

/// The value of an optional header, as a sequence of characters.
pub open spec fn header_view(value: Option<&str>) -> Option<Seq<char>> {
    match value {
        Some(v) => Some(v@),
        None => None,
    }
}

/// How a header value is classified: an exact match against the fixed list
/// of accepted media types, in registry order, with absence and every other
/// value unrecognized.
pub open spec fn spec_classify(value: Option<Seq<char>>) -> ContentTypeToken {
    match value {
        Some(v) => if v == "application/protobuf"@ {
            ContentTypeToken::ProtobufCanonical
        } else if v == "application/x-protobuf"@ || v == "application/vnd.google.protobuf"@ {
            ContentTypeToken::ProtobufAlias
        } else if v == "application/json"@ {
            ContentTypeToken::Json
        } else {
            ContentTypeToken::Unrecognized
        },
        None => ContentTypeToken::Unrecognized,
    }
}

/// A token under which a protobuf request body is accepted.
pub open spec fn accepts_protobuf(t: ContentTypeToken) -> bool {
    t is ProtobufCanonical || t is ProtobufAlias
}

/// The registry's media types are pairwise distinct, so classification maps
/// each accepted token to its own class.
pub proof fn lemma_media_types_distinct()
    ensures
        spec_classify(Some(spec_json_media_type())) is Json,
        spec_classify(Some(spec_protobuf_media_type())) is ProtobufCanonical,
        spec_classify(Some("application/x-protobuf"@)) is ProtobufAlias,
        spec_classify(Some("application/vnd.google.protobuf"@)) is ProtobufAlias,
{
    reveal_strlit("application/protobuf");
    reveal_strlit("application/x-protobuf");
    reveal_strlit("application/vnd.google.protobuf");
    reveal_strlit("application/json");
    assert("application/protobuf"@.len() == 20);
    assert("application/x-protobuf"@.len() == 22);
    assert("application/vnd.google.protobuf"@.len() == 31);
    assert("application/json"@.len() == 16);
}

/// String equality, decided character by character.
pub(crate) fn str_eq(a: &str, b: &str) -> (r: bool)
    ensures
        r == (a@ == b@),
{
    let a_len = a.unicode_len();
    let b_len = b.unicode_len();
    if a_len != b_len {
        return false;
    }
    let mut i: usize = 0;
    while i < a_len
        invariant
            a_len == a@.len(),
            b_len == b@.len(),
            a_len == b_len,
            i <= a_len,
            forall|j: int| 0 <= j < i ==> a@[j] == b@[j],
        decreases a_len - i,
    {
        if a.get_char(i) != b.get_char(i) {
            return false;
        }
        i += 1;
    }
    proof {
        assert(a@ =~= b@);
    }
    true
}

/// Classify an optional header value against the registry.
pub fn classify(value: Option<&str>) -> (t: ContentTypeToken)
    ensures
        t == spec_classify(header_view(value)),
{
    match value {
        None => ContentTypeToken::Unrecognized,
        Some(v) => {
            if str_eq(v, "application/protobuf") {
                ContentTypeToken::ProtobufCanonical
            } else if str_eq(v, "application/x-protobuf") {
                ContentTypeToken::ProtobufAlias
            } else if str_eq(v, "application/vnd.google.protobuf") {
                ContentTypeToken::ProtobufAlias
            } else if str_eq(v, "application/json") {
                ContentTypeToken::Json
            } else {
                ContentTypeToken::Unrecognized
            }
        },
    }
}

/// The canonical protobuf media type as a header value.
pub fn protobuf_media_type() -> (s: &'static str)
    ensures
        s@ == spec_protobuf_media_type(),
{
    "application/protobuf"
}

/// The JSON media type as a header value.
pub fn json_media_type() -> (s: &'static str)
    ensures
        s@ == spec_json_media_type(),
{
    "application/json"
}

} // verus!
