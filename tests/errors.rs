use todo_api::error::{Error, Problem, StoreError};
use todo_api::model::FieldViolation;

fn not_found() -> Error {
    Error::ResourceNotFound { name: "todo".to_owned(), id: 42 }
}

fn violation(field: &str, message: &str) -> FieldViolation {
    FieldViolation { field: field.to_owned(), message: message.to_owned() }
}

#[test]
fn codes_and_statuses_follow_the_table() {
    let cases = vec![
        (not_found(), 404, "error.entity.not-found"),
        (Error::JSONExtractor("bad".to_owned()), 400, "error.payload.invalid"),
        (Error::Validator(vec![violation("text", "m")]), 400, "error.payload.invalid"),
        (Error::PathExtractor("bad".to_owned()), 400, "error.path-parms.invalid"),
        (Error::Unexpected("disk".to_owned()), 500, "error.unexpected"),
    ];
    for (e, status, code) in cases {
        assert_eq!(e.status_code(), status);
        assert_eq!(e.error_code(), code);
        assert_eq!(e.type_url(), format!("type://{}", code));
    }
}

#[test]
fn not_found_title_names_entity_and_id() {
    assert_eq!(not_found().title(), "Requested resource 'todo' with ID: 42 not found");
    let big = Error::ResourceNotFound { name: "todo".to_owned(), id: 4294967295 };
    assert_eq!(big.title(), "Requested resource 'todo' with ID: 4294967295 not found");
    let zero = Error::ResourceNotFound { name: "x".to_owned(), id: 0 };
    assert_eq!(zero.title(), "Requested resource 'x' with ID: 0 not found");
}

#[test]
fn other_titles() {
    assert_eq!(Error::JSONExtractor(String::new()).title(), "Error extracting json payload");
    assert_eq!(Error::PathExtractor(String::new()).title(), "Error extracting path parameters");
    assert_eq!(Error::Validator(vec![]).title(), "Invalid request body");
    assert_eq!(Error::Unexpected("secret".to_owned()).title(), "Unexpected error");
}

#[test]
fn details_only_for_client_input_errors() {
    assert_eq!(not_found().details(), None);
    assert_eq!(Error::Unexpected("secret".to_owned()).details(), None);
    assert_eq!(Error::JSONExtractor("body".to_owned()).details(), Some("body".to_owned()));
    assert_eq!(Error::PathExtractor("path".to_owned()).details(), Some("path".to_owned()));
    let v = Error::Validator(vec![violation("text", "too long"), violation("state", "missing")]);
    assert_eq!(v.details(), Some("text: too long\nstate: missing".to_owned()));
}

#[test]
fn only_unexpected_is_logged() {
    assert!(Error::Unexpected("x".to_owned()).needs_logging());
    assert!(!not_found().needs_logging());
    assert!(!Error::JSONExtractor("x".to_owned()).needs_logging());
}

#[test]
fn row_not_found_in_context_carries_the_id() {
    let e = Error::from_with_context(StoreError::RowNotFound, "todo".to_owned(), 7);
    assert_eq!(e, Error::ResourceNotFound { name: "todo".to_owned(), id: 7 });
    let o = Error::from_with_context(StoreError::Other("locked".to_owned()), "todo".to_owned(), 7);
    assert_eq!(o, Error::Unexpected("locked".to_owned()));
}

#[test]
fn store_failure_without_context_is_unexpected() {
    assert!(matches!(Error::from_store(StoreError::RowNotFound), Error::Unexpected(_)));
    assert_eq!(
        Error::from_store(StoreError::Other("io".to_owned())),
        Error::Unexpected("io".to_owned())
    );
}

#[test]
fn problem_document_of_not_found() {
    let p = Problem::from_error(&not_found());
    assert_eq!(
        p,
        Problem {
            status: 404,
            title: "Requested resource 'todo' with ID: 42 not found".to_owned(),
            type_url: "type://error.entity.not-found".to_owned(),
            error_code: "error.entity.not-found".to_owned(),
            detail: None,
        }
    );
}

#[test]
fn problem_document_hides_unexpected_detail() {
    let p = Problem::from_error(&Error::Unexpected("connection refused".to_owned()));
    assert_eq!(p.status, 500);
    assert_eq!(p.title, "Unexpected error");
    assert_eq!(p.detail, None);
}
