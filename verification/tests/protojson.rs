use axum_protobuf::protobuf::ProtobufRejection;
use axum_protobuf::BodyError;
use axum_protobuf::Json;
use axum_protobuf::JsonMessage;
use axum_protobuf::Message;
use axum_protobuf::Protobuf;
use axum_protobuf::ProtoJson;
use axum_protobuf::ProtoJsonRejection;
use axum_protobuf::TestMessage;

fn message(text: &str) -> TestMessage {
    TestMessage {
        test: String::from(text),
    }
}

fn encoded(text: &str) -> Vec<u8> {
    message(text).encode_bytes().expect("encoding cannot fail")
}

#[test]
fn protojson_extractor_no_content_type() {
    let result = ProtoJson::<TestMessage>::from_body(None, Ok(Vec::new()));
    let rejection = match result {
        Err(rejection) => rejection,
        Ok(_) => panic!("a request without a content-type must be rejected"),
    };
    assert!(matches!(rejection, ProtoJsonRejection::MissingContentType));
    let response = rejection.into_response();
    assert_eq!(response.status, 415);
    assert_eq!(
        response.body,
        b"Missing 'content-type' header that has the value 'application/json' or 'application/protobuf'".to_vec()
    );
}

#[test]
fn protojson_extractor_protobuf_empty_body() {
    let result =
        ProtoJson::<TestMessage>::from_body(Some("application/protobuf"), Ok(Vec::new()));
    let decoded = match result {
        Ok(decoded) => decoded,
        Err(_) => panic!("an empty body is valid protobuf"),
    };
    assert_eq!(decoded.0.test, "");
}

#[test]
fn protojson_extractor_protobuf_invalid_body() {
    let result = ProtoJson::<TestMessage>::from_body(
        Some("application/protobuf"),
        Ok(b"invalid".to_vec()),
    );
    let rejection = match result {
        Err(rejection) => rejection,
        Ok(_) => panic!("structurally invalid bytes must be rejected"),
    };
    assert!(matches!(
        rejection,
        ProtoJsonRejection::ProtobufRejection(ProtobufRejection::ProtobufDecodeError(_))
    ));
    let response = rejection.into_response();
    assert_eq!(response.status, 400);
    assert_eq!(response.body, b"Protobuf decoding error".to_vec());
}

#[test]
fn protojson_extractor_json_empty_body() {
    let result = ProtoJson::<TestMessage>::from_body(Some("application/json"), Ok(Vec::new()));
    let rejection = match result {
        Err(rejection) => rejection,
        Ok(_) => panic!("an empty body is not valid JSON"),
    };
    let failure = match rejection {
        ProtoJsonRejection::JsonRejection(failure) => failure,
        _ => panic!("the JSON path must report a JSON failure"),
    };
    assert_eq!(failure.status, 400);
}

#[test]
fn protojson_extractor_protobuf_simple() {
    let result =
        ProtoJson::<TestMessage>::from_body(Some("application/protobuf"), Ok(encoded("test")));
    let decoded = match result {
        Ok(decoded) => decoded,
        Err(_) => panic!("a valid body must decode"),
    };
    assert_eq!(decoded.0.test, "test");
}

#[test]
fn protojson_extractor_protobuf_alternative_content_types() {
    for ct in [
        "application/protobuf",
        "application/x-protobuf",
        "application/vnd.google.protobuf",
    ] {
        println!("Trying Content-Type: {ct}");
        let result = ProtoJson::<TestMessage>::from_body(Some(ct), Ok(encoded("test")));
        let decoded = match result {
            Ok(decoded) => decoded,
            Err(_) => panic!("every accepted token must reach the decoder"),
        };
        assert_eq!(decoded.0.test, "test");
    }
}

#[test]
fn protojson_extractor_json_simple() {
    let result = ProtoJson::<TestMessage>::from_body(
        Some("application/json"),
        Ok(br#"{"test":"test"}"#.to_vec()),
    );
    let decoded = match result {
        Ok(decoded) => decoded,
        Err(_) => panic!("a valid JSON body must decode"),
    };
    assert_eq!(decoded.0.test, "test");
}

#[test]
fn protojson_response_no_accept() {
    let response = ProtoJson(message("test")).infer_response(None);
    assert_eq!(response.status, 400);
    assert_eq!(
        response.body,
        b"Missing 'accept' header with value 'application/json' or 'application/protobuf'".to_vec()
    );
}

#[test]
fn protojson_response_protobuf() {
    let response = ProtoJson(message("test")).infer_response(Some("application/protobuf"));
    assert_eq!(response.status, 200);
    assert_eq!(response.content_type.as_deref(), Some("application/protobuf"));
    let round_tripped: String =
        prost::Message::decode(response.body.as_slice()).expect("the body must be valid protobuf");
    assert_eq!(round_tripped, "test");
}

#[test]
fn protojson_response_json() {
    let response = ProtoJson(message("test")).infer_response(Some("application/json"));
    assert_eq!(response.status, 200);
    assert_eq!(response.content_type.as_deref(), Some("application/json"));
    let round_tripped: std::collections::BTreeMap<String, String> =
        serde_json::from_slice(response.body.as_slice()).expect("the body must be valid JSON");
    assert_eq!(round_tripped.get("test").map(String::as_str), Some("test"));
}

#[test]
fn protojson_negotiation_agrees_across_formats() {
    let from_json = ProtoJson::<TestMessage>::from_body(
        Some("application/json"),
        Ok(br#"{"test":"x"}"#.to_vec()),
    );
    let from_protobuf =
        ProtoJson::<TestMessage>::from_body(Some("application/protobuf"), Ok(encoded("x")));
    let (json_side, protobuf_side) = match (from_json, from_protobuf) {
        (Ok(json_side), Ok(protobuf_side)) => (json_side, protobuf_side),
        _ => panic!("both equivalent requests must decode"),
    };
    assert_eq!(json_side.0.test, "x");
    assert_eq!(json_side.0.test, protobuf_side.0.test);
}

#[test]
fn protojson_json_buffering_failure() {
    let result = ProtoJson::<TestMessage>::from_body(Some("application/json"), Err(BodyError));
    let failure = match result {
        Err(ProtoJsonRejection::JsonRejection(failure)) => failure,
        _ => panic!("a failed body stream on the JSON path must be a JSON rejection"),
    };
    assert_eq!(failure.status, 500);
}

#[test]
fn protojson_try_infer_response_unrecognized_accept() {
    assert!(ProtoJson(message("test"))
        .try_infer_response(Some("text/html"))
        .is_none());
    assert!(ProtoJson(message("test")).try_infer_response(None).is_none());
}

#[test]
fn protojson_response_alias_accept_gets_canonical_content_type() {
    // Input and output tokens are intentionally asymmetric: whatever alias
    // the Accept header used, the response carries the canonical token.
    let response = ProtoJson(message("test")).infer_response(Some("application/x-protobuf"));
    assert_eq!(response.status, 200);
    assert_eq!(response.content_type.as_deref(), Some("application/protobuf"));
}

#[test]
fn protojson_wants_body_gates_the_stream() {
    assert!(ProtoJson::<TestMessage>::wants_body(Some("application/json")));
    assert!(ProtoJson::<TestMessage>::wants_body(Some("application/protobuf")));
    assert!(ProtoJson::<TestMessage>::wants_body(Some("application/x-protobuf")));
    assert!(!ProtoJson::<TestMessage>::wants_body(Some("text/html")));
    assert!(!ProtoJson::<TestMessage>::wants_body(None));
}

#[test]
fn protojson_conversions() {
    let as_json: Json<TestMessage> = ProtoJson(message("a")).into();
    assert_eq!(as_json.0.test, "a");
    let back: ProtoJson<TestMessage> = as_json.into();
    assert_eq!(back.0.test, "a");
    let as_protobuf: Protobuf<TestMessage> = ProtoJson(message("b")).into();
    assert_eq!(as_protobuf.0.test, "b");
    let back: ProtoJson<TestMessage> = as_protobuf.into();
    assert_eq!(back.0.test, "b");
}

#[test]
fn json_codec_shape() {
    assert_eq!(message("x").to_json_bytes(), br#"{"test":"x"}"#.to_vec());
    let decoded = TestMessage::from_json_bytes(br#"{"other":"y","test":"x"}"#)
        .expect("unknown string fields are ignored");
    assert_eq!(decoded.test, "x");
    let defaulted = TestMessage::from_json_bytes(b"{}").expect("an absent field takes the default");
    assert_eq!(defaulted.test, "");
    let failure = match TestMessage::from_json_bytes(b"not json") {
        Err(failure) => failure,
        Ok(_) => panic!("malformed JSON must be rejected"),
    };
    assert_eq!(failure.status, 400);
    assert!(TestMessage::from_json_bytes(br#"{"test":3}"#).is_err());
}

#[test]
fn json_response_round_trip() {
    let response = Json(message("round")).into_response();
    assert_eq!(response.status, 200);
    assert_eq!(response.content_type.as_deref(), Some("application/json"));
    let decoded = TestMessage::from_json_bytes(response.body.as_slice())
        .expect("the JSON responder emits what the JSON decoder accepts");
    assert_eq!(decoded.test, "round");
}
