use jenkins_sdk::DecodeError;
use jenkins_sdk::JenkinsError;
use serde_json::Value;

#[test]
fn a_failed_parse_converts_to_a_syntax_error() {
    let failed = serde_json::from_str::<Value>("{").unwrap_err();
    let line = failed.line();
    let column = failed.column();
    match JenkinsError::from(failed) {
        JenkinsError::Json(DecodeError::Syntax(kept)) => {
            assert_eq!(kept.line(), line);
            assert_eq!(kept.column(), column);
            assert!(kept.is_eof());
        }
        other => panic!("{:?}", other),
    }
}

#[test]
fn a_decode_error_converts_to_a_json_error() {
    match JenkinsError::from(DecodeError::MissingField("jobs".to_string())) {
        JenkinsError::Json(DecodeError::MissingField(name)) => assert_eq!(name, "jobs"),
        other => panic!("{:?}", other),
    }
    match JenkinsError::from(DecodeError::TypeMismatch("color".to_string())) {
        JenkinsError::Json(DecodeError::TypeMismatch(place)) => assert_eq!(place, "color"),
        other => panic!("{:?}", other),
    }
}

#[test]
fn a_rejected_method_converts_to_an_invalid_method_error() {
    let rejected = http::Method::from_bytes(b"NOT A METHOD").unwrap_err();
    assert!(matches!(JenkinsError::from(rejected), JenkinsError::InvalidMethod(_)));
}

#[test]
fn question_mark_converts_on_the_way_out() {
    fn parse(text: &str) -> Result<Value, JenkinsError> {
        Ok(serde_json::from_str::<Value>(text)?)
    }
    fn method(token: &str) -> Result<http::Method, JenkinsError> {
        Ok(token.parse::<http::Method>()?)
    }
    assert!(matches!(parse("nope"), Err(JenkinsError::Json(DecodeError::Syntax(_)))));
    assert_eq!(parse("[1]").unwrap(), Value::Array(vec![Value::from(1)]));
    assert!(matches!(method(""), Err(JenkinsError::InvalidMethod(_))));
    assert_eq!(method("POST").unwrap(), http::Method::POST);
}

#[test]
fn errors_show_what_they_hold() {
    let shown = format!("{:?}", JenkinsError::HttpStatus { status: 404, body: "gone".to_string() });
    assert!(shown.contains("404"));
    assert!(shown.contains("gone"));
    let shown = format!("{:?}", JenkinsError::InvalidParams("no such parameter".to_string()));
    assert!(shown.contains("no such parameter"));
}
