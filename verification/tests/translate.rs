use openapi_deref::ref_to_json_path;
use openapi_deref::OpenApiError;

#[test]
pub fn test_ref_to_json_path() {
    let reference = "#/components/parameters/pagination-before";
    let expected = "$.components.parameters.pagination-before";
    assert_eq!(expected, &ref_to_json_path(reference).unwrap());
}

#[test]
pub fn test_file_ref_to_json_path() {
    let reference = "//elsewhere/components/parameters/pagination-before";
    assert!(ref_to_json_path(reference).is_err());
}

#[test]
pub fn test_http_ref_to_json_path() {
    let reference = "http://mysite.com/components/parameters/pagination-before";
    assert!(ref_to_json_path(reference).is_err());
}

#[test]
fn translate_rejects_with_the_reference_kept() {
    let reference = "http://mysite.com/x";
    match ref_to_json_path(reference) {
        Err(OpenApiError::UnsupportedRefFormat { reference: r }) => {
            assert_eq!(r, reference);
        }
        other => panic!("expected UnsupportedRefFormat, got {:?}", other),
    }
}

#[test]
fn translate_root_reference() {
    assert_eq!("$", &ref_to_json_path("#").unwrap());
    assert_eq!("$", &ref_to_json_path("#/").unwrap());
}

#[test]
fn translate_collapses_empty_segments() {
    assert_eq!("$.a.b", &ref_to_json_path("#/a//b/").unwrap());
}
