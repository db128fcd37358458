//! A ready-made message type with one string field, `test`.
//!
//! On the wire it is the `google.protobuf.StringValue` wrapper message —
//! one `string` field with tag 1, carried by prost's `Message`
//! implementation for `String` — and in JSON it is an object of string
//! fields, `{"test": ...}`, carried by serde_json, with an absent field
//! taking the default, empty value, and unknown string fields ignored.
//!
//! What either codec computes is named, not restated: the spec functions
//! `spec_string_wire`, `spec_string_parsed`, `spec_json_object_bytes` and
//! `spec_json_object_parsed` stand for the codecs' results, and everything
//! this module proves is relative to those names.

use vstd::prelude::*;
use vstd::string::StringExecFns;

use crate::content_type::str_eq;
use crate::message::DecodeFailure;
use crate::message::EncodeFailure;
use crate::message::JsonFailure;
use crate::message::JsonMessage;
use crate::message::Message;

verus! {

/// The bytes prost's codec produces for a `StringValue` message with these
/// characters.
pub uninterp spec fn spec_string_wire(s: Seq<char>) -> Seq<u8>;

/// The characters prost's codec decodes these bytes to, or `None` where it
/// rejects them.
pub uninterp spec fn spec_string_parsed(b: Seq<u8>) -> Option<Seq<char>>;

/// The bytes serde_json produces for an object with these string fields.
pub uninterp spec fn spec_json_object_bytes(fields: Seq<(Seq<char>, Seq<char>)>) -> Seq<u8>;

/// The string fields, in key order, that serde_json parses these bytes to,
/// or `None` where it rejects them as an object of string fields.
pub uninterp spec fn spec_json_object_parsed(b: Seq<u8>) -> Option<Seq<(Seq<char>, Seq<char>)>>;

/// Relies on prost's `Message::encode_to_vec` for `String` (the
/// `google.protobuf.StringValue` wrapper message): the bytes depend on the
/// characters alone, and the default, empty string encodes to no bytes.
#[verifier::external_body]
fn prost_encode_string(s: &String) -> (r: Vec<u8>)
    ensures
        r@ == spec_string_wire(s@),
        s@.len() == 0 ==> r@.len() == 0,
{
    prost::Message::encode_to_vec(s)
}

/// Relies on prost's `Message::decode` for `String`: the result depends on
/// the bytes alone, and an empty buffer decodes to the default, empty
/// string.
#[verifier::external_body]
fn prost_decode_string(b: &[u8]) -> (r: Result<String, String>)
    ensures
        r matches Ok(v) ==> spec_string_parsed(b@) == Some(v@),
        r is Err ==> spec_string_parsed(b@) is None,
        b@.len() == 0 ==> r is Ok && r->Ok_0@ == Seq::<char>::empty(),
{
    match <String as prost::Message>::decode(b) {
        Ok(s) => Ok(s),
        Err(e) => Err(format!("{e}")),
    }
}

/// Relies on `serde_json::to_vec` on a string-to-string map built from the
/// given entries: the bytes depend on the entries alone.
#[verifier::external_body]
fn json_encode_object(fields: &Vec<(String, String)>) -> (r: Vec<u8>)
    ensures
        r@ == spec_json_object_bytes(fields.deep_view()),
{
    let map: std::collections::BTreeMap<&str, &str> = fields.iter().map(
        |p| (p.0.as_str(), p.1.as_str()),
    ).collect();
    serde_json::to_vec(&map).expect("serializing a map of strings cannot fail")
}

/// Relies on `serde_json::from_slice` to a string-to-string map: the result
/// depends on the bytes alone, and comes back as the map's entries in key
/// order.
#[verifier::external_body]
fn json_decode_object(b: &[u8]) -> (r: Result<Vec<(String, String)>, String>)
    ensures
        r matches Ok(v) ==> spec_json_object_parsed(b@) == Some(v.deep_view()),
        r is Err ==> spec_json_object_parsed(b@) is None,
{
    match serde_json::from_slice::<std::collections::BTreeMap<String, String>>(b) {
        Ok(map) => Ok(map.into_iter().collect()),
        Err(e) => Err(format!("{e}")),
    }
}

/// The value of the field with this key among JSON object entries read in
/// order, later entries winning, or the default, empty value where the key
/// is absent.
pub open spec fn spec_field_or_default(
    fields: Seq<(Seq<char>, Seq<char>)>,
    key: Seq<char>,
) -> Seq<char>
    decreases fields.len(),
{
    if fields.len() == 0 {
        Seq::empty()
    } else if fields.last().0 == key {
        fields.last().1
    } else {
        spec_field_or_default(fields.drop_last(), key)
    }
}

/// A message with one string field, `test`, bound to a protobuf codec and a
/// JSON codec. It grounds the message traits and serves the tests; an
/// endpoint would supply its own message type the same way.
pub struct TestMessage {
    /// The message's single field, with tag 1 on the wire and the key
    /// `test` in JSON.
    pub test: String,
}

/// The model of a [`TestMessage`]: its field's characters.
pub struct TestMessageView {
    /// The field's characters.
    pub test: Seq<char>,
}

impl View for TestMessage {
    type V = TestMessageView;

    open spec fn view(&self) -> TestMessageView {
        TestMessageView { test: self.test@ }
    }
}

impl Message for TestMessage {
    open spec fn spec_wire(v: TestMessageView) -> Seq<u8> {
        spec_string_wire(v.test)
    }

    open spec fn spec_parsed(bytes: Seq<u8>) -> Option<TestMessageView> {
        if bytes.len() == 0 {
            Some(TestMessageView { test: Seq::empty() })
        } else {
            match spec_string_parsed(bytes) {
                Some(s) => Some(TestMessageView { test: s }),
                None => None,
            }
        }
    }

    open spec fn spec_default() -> TestMessageView {
        TestMessageView { test: Seq::empty() }
    }

    fn default_message() -> (r: Self) {
        TestMessage { test: String::new() }
    }

    fn encode_bytes(&self) -> (r: Result<Vec<u8>, EncodeFailure>) {
        Ok(prost_encode_string(&self.test))
    }

    fn decode_bytes(bytes: &[u8]) -> (r: Result<Self, DecodeFailure>) {
        match prost_decode_string(bytes) {
            Ok(s) => Ok(TestMessage { test: s }),
            Err(detail) => Err(DecodeFailure { detail }),
        }
    }
}

impl JsonMessage for TestMessage {
    open spec fn spec_json(v: TestMessageView) -> Seq<u8> {
        spec_json_object_bytes(seq![("test"@, v.test)])
    }

    open spec fn spec_json_parsed(bytes: Seq<u8>) -> Option<TestMessageView> {
        match spec_json_object_parsed(bytes) {
            Some(fields) => Some(
                TestMessageView { test: spec_field_or_default(fields, "test"@) },
            ),
            None => None,
        }
    }

    fn to_json_bytes(&self) -> (r: Vec<u8>) {
        let mut fields: Vec<(String, String)> = Vec::new();
        fields.push((String::from_str("test"), self.test.clone()));
        let r = json_encode_object(&fields);
        proof {
            assert(fields.deep_view() =~= seq![("test"@, self.test@)]);
        }
        r
    }

    fn from_json_bytes(bytes: &[u8]) -> (r: Result<Self, JsonFailure>) {
        match json_decode_object(bytes) {
            Err(detail) => Err(JsonFailure { status: 400, detail }),
            Ok(fields) => {
                let ghost all = fields.deep_view();
                let mut value = String::new();
                let mut i: usize = 0;
                while i < fields.len()
                    invariant
                        i <= fields.len(),
                        all == fields.deep_view(),
                        value@ == spec_field_or_default(all.take(i as int), "test"@),
                    decreases fields.len() - i,
                {
                    let ghost prefix = all.take(i as int);
                    if str_eq(fields[i].0.as_str(), "test") {
                        value = fields[i].1.clone();
                    }
                    i += 1;
                    proof {
                        assert(all.take(i as int).drop_last() =~= prefix);
                        assert(all.take(i as int).last() == all[i - 1]);
                    }
                }
                proof {
                    assert(all.take(fields@.len() as int) =~= all);
                }
                Ok(TestMessage { test: value })
            },
        }
    }
}

/// The bundled message type decodes an empty body to its default message by
/// construction, so the empty-body law holds of it with no codec assumption.
pub proof fn lemma_test_message_parses_empty()
    ensures
        <TestMessage as Message>::spec_parsed(Seq::empty()) == Some(
            <TestMessage as Message>::spec_default(),
        ),
{
}

} // verus!
