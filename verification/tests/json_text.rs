use error_envelope::json::JsonValue;
use error_envelope::{Code, Error};

#[test]
fn test_json_scalars() {
    assert_eq!(JsonValue::Null.to_json_string(), "null");
    assert_eq!(JsonValue::Bool(true).to_json_string(), "true");
    assert_eq!(JsonValue::Bool(false).to_json_string(), "false");
    assert_eq!(JsonValue::Int(0).to_json_string(), "0");
    assert_eq!(JsonValue::Int(12345).to_json_string(), "12345");
    assert_eq!(JsonValue::Int(-42).to_json_string(), "-42");
    assert_eq!(
        JsonValue::Int(i64::MIN).to_json_string(),
        "-9223372036854775808"
    );
    assert_eq!(
        JsonValue::Int(i64::MAX).to_json_string(),
        "9223372036854775807"
    );
    assert_eq!(JsonValue::Str("plain".to_string()).to_json_string(), "\"plain\"");
}

#[test]
fn test_json_string_escaping() {
    let v = JsonValue::Str("say \"hi\"\\\n".to_string());
    assert_eq!(v.to_json_string(), "\"say \\\"hi\\\"\\\\\\n\"");
    let v = JsonValue::Str("tab\there".to_string());
    assert_eq!(v.to_json_string(), "\"tab\\there\"");
    let v = JsonValue::Str("bell\u{07}end".to_string());
    assert_eq!(v.to_json_string(), "\"bell\\u0007end\"");
    let v = JsonValue::Str("crlf\r\n".to_string());
    assert_eq!(v.to_json_string(), "\"crlf\\r\\n\"");
    let v = JsonValue::Str("unit\u{1f}sep".to_string());
    assert_eq!(v.to_json_string(), "\"unit\\u001fsep\"");
}

#[test]
fn test_json_arrays_and_objects() {
    let v = JsonValue::Array(vec![
        JsonValue::Null,
        JsonValue::Bool(true),
        JsonValue::Int(-7),
        JsonValue::Str("a".to_string()),
    ]);
    assert_eq!(v.to_json_string(), "[null,true,-7,\"a\"]");

    let v = JsonValue::Array(vec![]);
    assert_eq!(v.to_json_string(), "[]");

    let v = JsonValue::Object(vec![]);
    assert_eq!(v.to_json_string(), "{}");

    let v = JsonValue::Object(vec![
        ("a".to_string(), JsonValue::Int(1)),
        (
            "b".to_string(),
            JsonValue::Array(vec![JsonValue::Object(vec![(
                "c".to_string(),
                JsonValue::Null,
            )])]),
        ),
    ]);
    assert_eq!(v.to_json_string(), "{\"a\":1,\"b\":[{\"c\":null}]}");
}

#[test]
fn test_json_clone_is_deep() {
    let v = JsonValue::Object(vec![(
        "nested".to_string(),
        JsonValue::Array(vec![JsonValue::Int(1)]),
    )]);
    let copy = v.clone();
    assert_eq!(v.to_json_string(), copy.to_json_string());
}

#[test]
fn test_message_escaping_in_body() {
    let err = Error::new(Code::BadRequest, 0, "expected \"id\"\nfield");
    assert_eq!(
        err.to_json(),
        "{\"code\":\"BAD_REQUEST\",\"message\":\"expected \\\"id\\\"\\nfield\",\"retryable\":false}"
    );
}

#[test]
fn test_unicode_message_survives() {
    let err = Error::new(Code::NotFound, 0, "usuário não encontrado");
    assert!(err.to_json().contains("\"message\":\"usuário não encontrado\""));
}
