use cdumay_core::{
    Details, Error, ErrorBuilder, ErrorKind, ErrorTypeDef, Outcome, SiteError, Value,
};

#[test]
fn side_threshold() {
    assert_eq!(ErrorKind("A", 0, "a").side(), "Client");
    assert_eq!(ErrorKind("A", 404, "a").side(), "Client");
    assert_eq!(ErrorKind("A", 499, "a").side(), "Client");
    assert_eq!(ErrorKind("A", 500, "a").side(), "Server");
    assert_eq!(ErrorKind("A", 65535, "a").side(), "Server");
}

#[test]
fn build_without_overrides_uses_kind_defaults() {
    let kind = ErrorKind("ValidationError", 400, "Invalid input");
    let err = ErrorBuilder::new(kind, "MissingField").build();
    assert_eq!(err.code(), 400);
    assert_eq!(err.message(), "Invalid input");
    assert_eq!(err.class(), "Client::ValidationError::MissingField");
    assert!(err.details().is_empty());
}

#[test]
fn overrides_take_precedence_in_any_order() {
    let kind = ErrorKind("ValidationError", 400, "Invalid input");
    let first = ErrorBuilder::new(kind, "MissingField")
        .with_code(422)
        .with_message("Username is required".to_string())
        .build();
    let second = ErrorBuilder::new(kind, "MissingField")
        .with_message("Username is required".to_string())
        .with_code(422)
        .build();
    assert_eq!(first.code(), 422);
    assert_eq!(second.code(), 422);
    assert_eq!(first.message(), "Username is required");
    assert_eq!(second.message(), "Username is required");
    let twice = ErrorBuilder::new(kind, "MissingField").with_code(401).with_code(403).build();
    assert_eq!(twice.code(), 403);
}

#[test]
fn with_details_replaces_instead_of_merging() {
    let kind = ErrorKind("ValidationError", 400, "Invalid input");
    let mut first = Details::new();
    first.insert("a".to_string(), Value::Int(1));
    let mut second = Details::new();
    second.insert("b".to_string(), Value::Int(2));
    let err = ErrorBuilder::new(kind, "Site").with_details(first).with_details(second).build();
    let details = err.details();
    assert!(!details.contains_key("a"));
    assert!(details.contains_key("b"));
}

#[test]
fn builder_example_renders_exactly() {
    let kind = ErrorKind("TestError", 500, "Test error message");
    let err = ErrorBuilder::new(kind, "MyError").with_message("Test error".to_string()).build();
    assert_eq!(err.render(), "Server::TestError::MyError (500) - Test error");
}

#[test]
fn default_builder_is_unknown_internal_error() {
    let err = ErrorBuilder::default().build();
    assert_eq!(
        err.render(),
        "Server::InternalServerError::UnknownError (500) - Internal Server Error"
    );
}

#[test]
fn rendering_covers_code_edges() {
    let low = Error::new(0, "C::K::S".to_string(), "m".to_string(), Details::new());
    assert_eq!(low.render(), "C::K::S (0) - m");
    let high = Error::new(65535, "C::K::S".to_string(), "m".to_string(), Details::new());
    assert_eq!(high.render(), "C::K::S (65535) - m");
}

#[test]
fn details_insert_replaces_existing_key() {
    let mut details = Details::new();
    details.insert("k".to_string(), Value::Text("one".to_string()));
    details.insert("k".to_string(), Value::Text("two".to_string()));
    assert_eq!(details.get("k").unwrap(), &Value::Text("two".to_string()));
    assert_eq!(details.get("missing"), None);
    assert!(!details.is_empty());
}

#[test]
fn details_equality_ignores_insertion_order() {
    let mut first = Details::new();
    first.insert("a".to_string(), Value::Uint(1));
    first.insert("b".to_string(), Value::Uint(2));
    let mut second = Details::new();
    second.insert("b".to_string(), Value::Uint(2));
    second.insert("a".to_string(), Value::Uint(1));
    assert_eq!(first, second);
    let mut third = Details::new();
    third.insert("a".to_string(), Value::Uint(1));
    assert_ne!(first, third);
}

#[test]
fn value_variants_do_not_compare_equal() {
    assert_ne!(Value::Int(1), Value::Uint(1));
    assert_ne!(Value::Text("1".to_string()), Value::Int(1));
    assert_eq!(Value::Unit, Value::Unit);
    assert_eq!(Value::Boolean(true), Value::Boolean(true));
    assert_ne!(Value::Boolean(true), Value::Boolean(false));
}

#[test]
fn record_round_trip_keeps_class_message_details() {
    let kind = ErrorKind("NotFound", 404, "Resource Not Found");
    let mut details = Details::new();
    details.insert("path".to_string(), Value::Text("/missing".to_string()));
    let err = ErrorBuilder::new(kind, "UrlDoesNotExist").with_details(details).build();

    let record = err.to_record();
    let back = Error::from_record(record, 404);
    assert_eq!(back.class(), err.class());
    assert_eq!(back.message(), err.message());
    assert_eq!(back.details(), err.details());
    assert_eq!(back.code(), 404);

    let other_code = Error::from_record(err.to_record(), 500);
    assert_eq!(other_code.code(), 500);
    assert_eq!(other_code.class(), err.class());
}

#[test]
fn site_error_renders_with_colon() {
    let kind = ErrorKind("NotFound", 404, "Resource Not Found");
    let err = SiteError::new(ErrorTypeDef::of_kind(kind, "NotFoundError"));
    assert_eq!(err.render(), "Client::NotFound::NotFoundError (404): Resource Not Found");
    assert_eq!(err.kind().name(), "NotFound");
}

#[test]
fn site_error_with_code_and_message_binding() {
    let kind = ErrorKind("Unauthorized", 401, "Unauthorized Access");
    let def = ErrorTypeDef::with_code_and_message(
        kind,
        "LoginTimeout",
        440,
        "The client's session has expired and must log in again.",
    );
    let err = SiteError::new(def);
    assert_eq!(err.code(), 440);
    assert_eq!(err.message(), "The client's session has expired and must log in again.");
    assert_eq!(err.class(), "Client::Unauthorized::LoginTimeout");
}

#[test]
fn site_error_conversion_preserves_everything() {
    let kind = ErrorKind("Unauthorized", 401, "Unauthorized Access");
    let mut details = Details::new();
    details.insert("reason".to_string(), Value::Text("expired".to_string()));
    let err = SiteError::new(ErrorTypeDef::with_code(kind, "Forbidden", 403))
        .with_details(details.clone());
    let core: Error = err.to_error();
    assert_eq!(core.code(), 403);
    assert_eq!(core.message(), "Unauthorized Access");
    assert_eq!(core.class(), "Client::Unauthorized::Forbidden");
    assert_eq!(core.details(), details);
}

#[test]
fn kinds_compare_by_value() {
    assert_eq!(ErrorKind("NotFound", 404, "Not Found"), ErrorKind("NotFound", 404, "Not Found"));
    assert_ne!(ErrorKind("NotFound", 404, "Not Found"), ErrorKind("NotFound", 400, "Not Found"));
    assert_ne!(ErrorKind("NotFound", 404, "Not Found"), ErrorKind("Missing", 404, "Not Found"));
    assert_ne!(ErrorKind("NotFound", 404, "Not Found"), ErrorKind("NotFound", 404, "Gone"));
}

#[test]
fn cloned_builder_builds_the_same_error() {
    let kind = ErrorKind("TestError", 500, "Test error message");
    let builder = ErrorBuilder::new(kind, "MyError").with_code(503);
    let from_clone = builder.clone().build();
    let from_original = builder.build();
    assert_eq!(from_clone.render(), from_original.render());
    assert_eq!(from_clone.code(), 503);
}

#[test]
fn details_items_lists_each_binding_once() {
    let mut details = Details::new();
    details.insert("a".to_string(), Value::Uint(1));
    details.insert("b".to_string(), Value::Uint(2));
    details.insert("a".to_string(), Value::Uint(3));
    let items = details.items();
    assert_eq!(items.len(), 2);
    let a = items.iter().find(|(k, _)| k == "a").expect("key a must be listed");
    assert_eq!(a.1, Value::Uint(3));
    let b = items.iter().find(|(k, _)| k == "b").expect("key b must be listed");
    assert_eq!(b.1, Value::Uint(2));
}

#[test]
fn outcome_map_passes_failure_through() {
    let kind = ErrorKind("TestError", 500, "Test error message");
    let err = ErrorBuilder::new(kind, "MyError").build();
    let failing: Outcome<i32> = Outcome::Failure(err);
    let mapped = failing.map(|x| x + 1);
    match mapped {
        Outcome::Failure(e) => assert_eq!(e.message(), "Test error message"),
        Outcome::Success(_) => panic!("a failure must pass through map untouched"),
    }
}

#[test]
fn outcome_from_std_result() {
    let ok: Outcome<i32> = Ok(7).into();
    assert!(matches!(ok, Outcome::Success(7)));
    let kind = ErrorKind("TestError", 500, "Test error message");
    let err = ErrorBuilder::new(kind, "MyError").build();
    let failed: Outcome<i32> = Err(err).into();
    match failed {
        Outcome::Failure(e) => assert_eq!(e.code(), 500),
        Outcome::Success(_) => panic!("an error must convert to a failure"),
    }
}
