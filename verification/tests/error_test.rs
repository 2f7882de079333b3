use billplz::error::ParseError;
use billplz::BillplzError;

#[test]
fn test_api_error_display() {
    let err = BillplzError::Api {
        error_type: "unauthorized".to_string(),
        message: "Invalid API key".to_string(),
    };
    assert_eq!(err.to_string(), "API error (unauthorized): Invalid API key");
}

#[test]
fn test_api_error_debug() {
    let err = BillplzError::Api {
        error_type: "not_found".to_string(),
        message: "Bill not found".to_string(),
    };
    let debug = format!("{:?}", err);
    assert!(debug.contains("not_found"));
    assert!(debug.contains("Bill not found"));
}

#[test]
fn http_error_display() {
    let err = BillplzError::Http("connection refused".to_string());
    assert_eq!(err.to_string(), "HTTP error: connection refused");
}

#[test]
fn parse_error_display() {
    let syntax = ParseError::Syntax("expected value at line 1 column 1".to_string());
    assert_eq!(syntax.to_string(), "expected value at line 1 column 1");
    assert_eq!(
        BillplzError::Parse(syntax).to_string(),
        "JSON parse error: expected value at line 1 column 1"
    );
    assert_eq!(ParseError::NotAnObject.to_string(), "expected a JSON object");
    assert_eq!(ParseError::MissingField("id".to_string()).to_string(), "missing field `id`");
    assert_eq!(
        ParseError::InvalidField("amount".to_string()).to_string(),
        "invalid value for field `amount`"
    );
    assert_eq!(
        BillplzError::Parse(ParseError::MissingField("id".to_string())).to_string(),
        "JSON parse error: missing field `id`"
    );
}
