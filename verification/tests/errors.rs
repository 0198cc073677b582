use openapi_deref::json::JsonValue;
use openapi_deref::OpenApiDereferencer;
use openapi_deref::OpenApiError;

#[test]
fn invalid_json_is_a_parsing_error() {
    match OpenApiDereferencer::from_str("not json at all") {
        Err(OpenApiError::ParsingError { .. }) => {}
        other => panic!("expected ParsingError, got {:?}", other.err()),
    }
    match OpenApiDereferencer::from_bytes(b"{") {
        Err(OpenApiError::ParsingError { .. }) => {}
        other => panic!("expected ParsingError, got {:?}", other.err()),
    }
}

#[test]
fn missing_version_is_a_parsing_error() {
    match OpenApiDereferencer::from_str(r##"{"paths": {}}"##) {
        Err(OpenApiError::ParsingError { msg }) => {
            assert!(msg.contains("openapi"));
        }
        other => panic!("expected ParsingError, got {:?}", other.err()),
    }
}

#[test]
fn external_reference_fails_and_names_the_reference() {
    let text = r##"{
        "openapi": "3.1.0",
        "components": {
            "examples": {"e": {"$ref": "http://example.com/x"}}
        }
    }"##;
    let loaded = OpenApiDereferencer::from_str(text).unwrap();
    match loaded.dereference() {
        Err(OpenApiError::UnsupportedRefFormat { reference }) => {
            assert_eq!(reference, "http://example.com/x");
        }
        other => panic!("expected UnsupportedRefFormat, got {:?}", other.err()),
    }
}

#[test]
fn relative_file_reference_fails() {
    let text = r##"{
        "openapi": "3.1.0",
        "components": {
            "examples": {"e": {"$ref": "//other-file#/x"}}
        }
    }"##;
    let loaded = OpenApiDereferencer::from_str(text).unwrap();
    assert!(matches!(
        loaded.dereference(),
        Err(OpenApiError::UnsupportedRefFormat { .. })
    ));
}

#[test]
fn missing_target_is_a_parsing_error_naming_the_pointer() {
    let text = r##"{
        "openapi": "3.1.0",
        "components": {
            "examples": {"e": {"$ref": "#/components/examples/absent"}}
        }
    }"##;
    let loaded = OpenApiDereferencer::from_str(text).unwrap();
    match loaded.dereference() {
        Err(OpenApiError::ParsingError { msg }) => {
            assert!(msg.contains("#/components/examples/absent"));
        }
        other => panic!("expected ParsingError, got {:?}", other.err()),
    }
}

#[test]
fn decode_failure_after_resolution_names_the_pointer() {
    let text = r##"{
        "openapi": "3.1.0",
        "definitions": {"bad": 7},
        "paths": {
            "/x": {"get": {"parameters": [{"$ref": "#/definitions/bad"}]}}
        }
    }"##;
    let loaded = OpenApiDereferencer::from_str(text).unwrap();
    match loaded.dereference() {
        Err(OpenApiError::ParsingError { msg }) => {
            assert!(msg.contains("#/definitions/bad"));
            assert!(msg.contains("parameter is not an object"));
        }
        other => panic!("expected ParsingError, got {:?}", other.err()),
    }
}

#[test]
fn parameter_without_name_fails_at_construction() {
    let text = r##"{
        "openapi": "3.1.0",
        "components": {"parameters": {"bad": {"in": "query"}}}
    }"##;
    match OpenApiDereferencer::from_str(text) {
        Err(OpenApiError::ParsingError { msg }) => {
            assert!(msg.contains("name"));
        }
        other => panic!("expected ParsingError, got {:?}", other.err()),
    }
}

#[test]
fn parameter_with_unknown_location_fails() {
    let text = r##"{
        "openapi": "3.1.0",
        "components": {"parameters": {"bad": {"name": "n", "in": "body"}}}
    }"##;
    assert!(matches!(
        OpenApiDereferencer::from_str(text),
        Err(OpenApiError::ParsingError { .. })
    ));
}

#[test]
fn self_referential_schema_hits_the_depth_bound() {
    let text = r##"{
        "openapi": "3.1.0",
        "components": {
            "schemas": {"a": {"allOf": [{"$ref": "#/components/schemas/a"}]}}
        }
    }"##;
    let loaded = OpenApiDereferencer::from_str(text).unwrap();
    match loaded.dereference() {
        Err(OpenApiError::RecursionLimitExceeded) => {}
        other => panic!("expected RecursionLimitExceeded, got {:?}", other.err()),
    }
}

#[test]
fn from_tree_rejects_a_non_object_document() {
    match OpenApiDereferencer::from_tree(JsonValue::Bool(true)) {
        Err(OpenApiError::ParsingError { msg }) => {
            assert!(msg.contains("document"));
        }
        other => panic!("expected ParsingError, got {:?}", other.err()),
    }
}

#[test]
fn from_tree_accepts_a_hand_built_document() {
    let doc = JsonValue::Object(vec![(
        "openapi".to_owned(),
        JsonValue::Text("3.1.0".to_owned()),
    )]);
    let d = OpenApiDereferencer::from_tree(doc).unwrap();
    assert_eq!(d.openapi.openapi, "3.1.0");
    let d = d.dereference().unwrap();
    assert!(d.get_servers().unwrap().is_empty());
}
