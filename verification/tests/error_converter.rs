use cdumay_core::{Details, Error, ErrorConverter, ErrorKind, ErrorTypeDef, SiteError, Value};

/// A simple foreign error to exercise the converter.
#[derive(Debug)]
struct MyError {
    message: String,
}

struct MyErrorConverter;

impl ErrorConverter for MyErrorConverter {
    type Error = MyError;

    fn render(e: &MyError) -> String {
        e.message.clone()
    }

    fn convert(_: &MyError, text: String, context: Details) -> Error {
        let mock_kind = ErrorKind("MockKind", 500, "Mock error kind");
        let mock_error = ErrorTypeDef::of_kind(mock_kind, "MockError");
        SiteError::new(mock_error).with_message(text).with_details(context).to_error()
    }
}

#[test]
fn test_store_origin_with_text() {
    let error = MyError { message: "Oops".into() };
    let mut context = Details::new();
    context.insert("key".to_string(), Value::Text("value".to_string()));

    let (message, updated_context) =
        MyErrorConverter::store_origin(&error, Some("Custom message".into()), context.clone());

    assert_eq!(message, "Custom message");
    assert!(updated_context.contains_key("origin"));
    assert_eq!(updated_context.get("origin").unwrap(), &Value::Text("Oops".to_string()));
}

#[test]
fn test_store_origin_without_text() {
    let error = MyError { message: "Default error".into() };
    let context = Details::new();

    let (message, updated_context) = MyErrorConverter::store_origin(&error, None, context.clone());

    assert_eq!(message, "Default error");
    assert!(updated_context.is_empty());
}

#[test]
fn test_convert_error_with_custom_text() {
    let error = MyError { message: "Conversion failed".into() };
    let mut context = Details::new();
    context.insert("field".to_string(), Value::Text("value".into()));

    let result =
        MyErrorConverter::convert_error(&error, Some("Something went wrong".into()), context.clone());

    assert_eq!(result.message(), "Something went wrong");
    assert!(result.details().contains_key("origin"));
    assert_eq!(result.details().get("origin").unwrap(), &Value::Text("Conversion failed".to_string()));
}

#[test]
fn test_convert_error_with_default_message() {
    let error = MyError { message: "Fallback error".into() };
    let context = Details::new();

    let result = MyErrorConverter::convert_error(&error, None, context);

    assert_eq!(result.message(), "Fallback error");
}
