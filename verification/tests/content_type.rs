use axum_protobuf::classify;
use axum_protobuf::ContentTypeToken;

#[test]
fn classify_recognizes_the_registry() {
    assert_eq!(
        classify(Some("application/protobuf")),
        ContentTypeToken::ProtobufCanonical
    );
    assert_eq!(
        classify(Some("application/x-protobuf")),
        ContentTypeToken::ProtobufAlias
    );
    assert_eq!(
        classify(Some("application/vnd.google.protobuf")),
        ContentTypeToken::ProtobufAlias
    );
    assert_eq!(classify(Some("application/json")), ContentTypeToken::Json);
}

#[test]
fn classify_rejects_everything_else() {
    assert_eq!(classify(None), ContentTypeToken::Unrecognized);
    assert_eq!(classify(Some("")), ContentTypeToken::Unrecognized);
    assert_eq!(classify(Some("text/html")), ContentTypeToken::Unrecognized);
    assert_eq!(
        classify(Some("application/protobuf ")),
        ContentTypeToken::Unrecognized
    );
}

#[test]
fn classify_is_strict() {
    // No parameter stripping and no case folding: exact matches only.
    assert_eq!(
        classify(Some("application/json; charset=utf-8")),
        ContentTypeToken::Unrecognized
    );
    assert_eq!(
        classify(Some("Application/JSON")),
        ContentTypeToken::Unrecognized
    );
}
