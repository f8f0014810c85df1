use cdumay_core::{Details, Error, ErrorKind, ErrorTypeDef, SiteError, Value};

#[test]
fn test_not_found_error_defaults() {
    let not_found = ErrorKind("NotFound", 404, "Resource Not Found");
    let err = SiteError::new(ErrorTypeDef::of_kind(not_found, "NotFoundError"));
    assert_eq!(err.code(), 404);
    assert_eq!(err.message(), "Resource Not Found");
    assert_eq!(err.class(), "Client::NotFound::NotFoundError");
}

#[test]
fn test_forbidden_error_override_code() {
    let unauthorized = ErrorKind("Unauthorized", 401, "Unauthorized Access");
    let err = SiteError::new(ErrorTypeDef::with_code(unauthorized, "Forbidden", 403));
    assert_eq!(err.code(), 403);
    assert_eq!(err.message(), "Unauthorized Access");
    assert_eq!(err.class(), "Client::Unauthorized::Forbidden");
}

#[test]
fn test_with_custom_fields() {
    let unauthorized = ErrorKind("Unauthorized", 401, "Unauthorized Access");
    let mut details = Details::new();
    details.insert("reason".to_string(), Value::Text("token_expired".into()));

    let err = SiteError::new(ErrorTypeDef::of_kind(unauthorized, "UnauthorizedError"))
        .with_code(498)
        .with_message("Token expired".to_string())
        .with_details(details.clone());

    assert_eq!(err.code(), 498);
    assert_eq!(err.message(), "Token expired");
    assert_eq!(err.details(), details);
}

#[test]
fn test_conversion_to_core_error() {
    let not_found = ErrorKind("NotFound", 404, "Resource Not Found");
    let err = SiteError::new(ErrorTypeDef::of_kind(not_found, "NotFoundError"))
        .with_message("Page missing".to_string());
    let core: Error = err.to_error();

    assert_eq!(core.code(), 404);
    assert_eq!(core.message(), "Page missing");
}
