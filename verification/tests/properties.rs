use error_envelope::json::JsonValue;
use error_envelope::{Code, Error};

const ALL_CODES: [Code; 18] = [
    Code::Internal,
    Code::BadRequest,
    Code::NotFound,
    Code::MethodNotAllowed,
    Code::Gone,
    Code::Conflict,
    Code::PayloadTooLarge,
    Code::RequestTimeout,
    Code::RateLimited,
    Code::Unavailable,
    Code::ValidationFailed,
    Code::Unauthorized,
    Code::Forbidden,
    Code::UnprocessableEntity,
    Code::Timeout,
    Code::Canceled,
    Code::DownstreamError,
    Code::DownstreamTimeout,
];

#[test]
fn test_defaults_apply_for_every_code() {
    for code in ALL_CODES {
        let err = Error::new(code, 0, "");
        assert_eq!(err.status, code.default_status());
        assert_eq!(err.message, code.default_message());
        assert_eq!(err.retryable, code.is_retryable_default());
    }
}

#[test]
fn test_default_status_table() {
    assert_eq!(Code::Internal.default_status(), 500);
    assert_eq!(Code::BadRequest.default_status(), 400);
    assert_eq!(Code::NotFound.default_status(), 404);
    assert_eq!(Code::MethodNotAllowed.default_status(), 405);
    assert_eq!(Code::Gone.default_status(), 410);
    assert_eq!(Code::Conflict.default_status(), 409);
    assert_eq!(Code::PayloadTooLarge.default_status(), 413);
    assert_eq!(Code::RequestTimeout.default_status(), 408);
    assert_eq!(Code::RateLimited.default_status(), 429);
    assert_eq!(Code::Unavailable.default_status(), 503);
    assert_eq!(Code::ValidationFailed.default_status(), 400);
    assert_eq!(Code::Unauthorized.default_status(), 401);
    assert_eq!(Code::Forbidden.default_status(), 403);
    assert_eq!(Code::UnprocessableEntity.default_status(), 422);
    assert_eq!(Code::Timeout.default_status(), 504);
    assert_eq!(Code::Canceled.default_status(), 499);
    assert_eq!(Code::DownstreamError.default_status(), 502);
    assert_eq!(Code::DownstreamTimeout.default_status(), 504);
}

#[test]
fn test_default_retryable_set() {
    for code in ALL_CODES {
        let expected = matches!(
            code,
            Code::Timeout
                | Code::DownstreamTimeout
                | Code::Unavailable
                | Code::RateLimited
                | Code::RequestTimeout
        );
        assert_eq!(code.is_retryable_default(), expected);
    }
}

#[test]
fn test_non_empty_message_kept() {
    let err = Error::new(Code::Conflict, 0, "write conflict on row 7");
    assert_eq!(err.message, "write conflict on row 7");
}

#[test]
fn test_non_zero_status_respected() {
    let err = Error::new(Code::NotFound, 451, "gone for legal reasons");
    assert_eq!(err.status, 451);
}

#[test]
fn test_with_status_zero_is_no_op() {
    let err = Error::new(Code::NotFound, 404, "x").with_status(0);
    assert_eq!(err.status, 404);
    let err = err.with_status(410);
    assert_eq!(err.status, 410);
}

#[test]
fn test_mutator_last_value_wins() {
    let err = Error::not_found("x").with_trace_id("a").with_trace_id("b");
    assert_eq!(err.trace_id, Some("b".to_string()));

    let err = Error::not_found("x").with_retryable(true).with_retryable(false);
    assert!(!err.retryable);

    let err = Error::not_found("x").with_retry_after(10).with_retry_after(20);
    assert_eq!(err.retry_after, Some(20));
}

#[test]
fn test_retry_after_format_edges() {
    let body = Error::rate_limited("x").with_retry_after(59).to_json();
    assert!(body.contains("\"retry_after\":\"59s\""));
    let body = Error::rate_limited("x").with_retry_after(60).to_json();
    assert!(body.contains("\"retry_after\":\"1m0s\""));
    let body = Error::rate_limited("x").with_retry_after(90).to_json();
    assert!(body.contains("\"retry_after\":\"1m30s\""));
    let body = Error::rate_limited("x").with_retry_after(0).to_json();
    assert!(body.contains("\"retry_after\":\"0s\""));
    assert_eq!(error_envelope::text::retry_after_text(90), "1m30s");
    assert_eq!(error_envelope::text::retry_after_text(3601), "60m1s");
}

#[test]
fn test_field_presence_minimal_body() {
    let err = Error::new(Code::NotFound, 0, "user not found");
    assert_eq!(
        err.to_json(),
        "{\"code\":\"NOT_FOUND\",\"message\":\"user not found\",\"retryable\":false}"
    );
}

#[test]
fn test_full_body_field_order() {
    let details = JsonValue::Object(vec![("k".to_string(), JsonValue::Str("v".to_string()))]);
    let err = Error::new(Code::RateLimited, 0, "Too many requests")
        .with_details(details)
        .with_trace_id("abc-123")
        .with_retry_after(30);
    assert_eq!(
        err.to_json(),
        "{\"code\":\"RATE_LIMITED\",\"message\":\"Too many requests\",\"details\":{\"k\":\"v\"},\"trace_id\":\"abc-123\",\"retryable\":true,\"retry_after\":\"30s\"}"
    );
}

#[test]
fn test_wrap_always_captures_cause() {
    let err = Error::wrap(Code::Internal, 0, "", "disk full");
    assert_eq!(err.cause(), Some("disk full"));
    let err = Error::wrap(Code::BadRequest, 422, "bad payload", "missing comma");
    assert_eq!(err.cause(), Some("missing comma"));
}

#[test]
fn test_downstream_with_service_details() {
    let err = Error::downstream("payments", "connection reset");
    assert_eq!(err.code, Code::DownstreamError);
    assert_eq!(err.status, 502);
    assert!(err.retryable);
    let body = err.to_json();
    assert!(body.contains("\"details\":{\"service\":\"payments\"}"));
    assert_eq!(err.cause(), Some("connection reset"));
}

#[test]
fn test_downstream_empty_service_has_no_details() {
    let err = Error::downstream("", "connection reset");
    assert!(err.details.is_none());
}

#[test]
fn test_downstream_timeout_defaults() {
    let err = Error::downstream_timeout("ledger", "deadline exceeded");
    assert_eq!(err.code, Code::DownstreamTimeout);
    assert_eq!(err.status, 504);
    assert!(err.retryable);
    assert!(err.details.is_some());
    let err = Error::downstream_timeout("", "deadline exceeded");
    assert!(err.details.is_none());
}

#[test]
fn test_validation_field_details() {
    let err = error_envelope::validation(vec![(
        "email".to_string(),
        "bad".to_string(),
    )]);
    assert_eq!(err.code, Code::ValidationFailed);
    assert!(!err.retryable);
    assert_eq!(err.message, "Invalid input");
    let body = err.to_json();
    assert!(body.contains("\"details\":{\"fields\":{\"email\":\"bad\"}}"));
}

#[test]
fn test_validation_several_fields() {
    let err = error_envelope::validation(vec![
        ("name".to_string(), "required".to_string()),
        ("age".to_string(), "must be a number".to_string()),
    ]);
    let body = err.to_json();
    assert!(body.contains(
        "\"details\":{\"fields\":{\"name\":\"required\",\"age\":\"must be a number\"}}"
    ));
}

#[test]
fn test_from_classifies_timeout() {
    let err = error_envelope::from("Connection TIMEOUT after 5s");
    assert_eq!(err.code, Code::Timeout);
    assert_eq!(err.message, "Request timed out");
    assert!(err.retryable);

    let err = error_envelope::from("the request Timed Out");
    assert_eq!(err.code, Code::Timeout);
}

#[test]
fn test_from_classifies_cancel() {
    let err = error_envelope::from("operation was Canceled by peer");
    assert_eq!(err.code, Code::Canceled);
    assert_eq!(err.status(), 499);
    assert!(!err.retryable);
}

#[test]
fn test_from_wraps_everything_else() {
    let err = error_envelope::from("disk quota exceeded");
    assert_eq!(err.code, Code::Internal);
    assert_eq!(err.status(), 500);
    assert!(!err.retryable);
    assert_eq!(err.cause(), Some("disk quota exceeded"));
}

#[test]
fn test_is_checks_code() {
    let err = Error::not_found("x");
    assert!(error_envelope::is(&err, Code::NotFound));
    assert!(!error_envelope::is(&err, Code::Internal));
}

#[test]
fn test_status_accessor() {
    let err = Error::not_found("x").with_status(404);
    assert_eq!(err.status(), 404);
}

#[test]
fn test_display_with_cause() {
    let err = Error::wrap(Code::Internal, 0, "db down", "connection refused");
    assert_eq!(err.display_string(), "Internal: db down (connection refused)");
}

#[test]
fn test_retry_after_header_minimum() {
    assert_eq!(error_envelope::error::retry_after_header_secs(0), 1);
    assert_eq!(error_envelope::error::retry_after_header_secs(30), 30);
}

#[test]
fn test_wire_names() {
    let expected = [
        "INTERNAL",
        "BAD_REQUEST",
        "NOT_FOUND",
        "METHOD_NOT_ALLOWED",
        "GONE",
        "CONFLICT",
        "PAYLOAD_TOO_LARGE",
        "REQUEST_TIMEOUT",
        "RATE_LIMITED",
        "UNAVAILABLE",
        "VALIDATION_FAILED",
        "UNAUTHORIZED",
        "FORBIDDEN",
        "UNPROCESSABLE_ENTITY",
        "TIMEOUT",
        "CANCELED",
        "DOWNSTREAM_ERROR",
        "DOWNSTREAM_TIMEOUT",
    ];
    for (code, name) in ALL_CODES.iter().zip(expected.iter()) {
        assert_eq!(code.wire_name(), *name);
        assert!(Error::new(*code, 0, "").to_json().contains(&format!("\"code\":\"{}\"", name)));
    }
}

#[test]
fn test_helper_constructors_fixed_policies() {
    let cases: [(Error, Code, u16, bool); 15] = [
        (Error::internal("m"), Code::Internal, 500, false),
        (Error::bad_request("m"), Code::BadRequest, 400, false),
        (Error::validation("m"), Code::ValidationFailed, 400, false),
        (Error::unauthorized("m"), Code::Unauthorized, 401, false),
        (Error::forbidden("m"), Code::Forbidden, 403, false),
        (Error::not_found("m"), Code::NotFound, 404, false),
        (Error::method_not_allowed("m"), Code::MethodNotAllowed, 405, false),
        (Error::request_timeout("m"), Code::RequestTimeout, 408, true),
        (Error::conflict("m"), Code::Conflict, 409, false),
        (Error::gone("m"), Code::Gone, 410, false),
        (Error::payload_too_large("m"), Code::PayloadTooLarge, 413, false),
        (Error::unprocessable_entity("m"), Code::UnprocessableEntity, 422, false),
        (Error::rate_limited("m"), Code::RateLimited, 429, true),
        (Error::timeout("m"), Code::Timeout, 504, true),
        (Error::unavailable("m"), Code::Unavailable, 503, true),
    ];
    for (err, code, status, retryable) in cases {
        assert_eq!(err.code, code);
        assert_eq!(err.status, status);
        assert_eq!(err.retryable, retryable);
        assert_eq!(err.message, "m");
    }
}

#[test]
fn test_formatted_helper_constructors() {
    let cases: [(Error, Code, u16); 8] = [
        (error_envelope::internalf("m"), Code::Internal, 500),
        (error_envelope::bad_requestf("m"), Code::BadRequest, 400),
        (error_envelope::not_foundf("m"), Code::NotFound, 404),
        (error_envelope::unauthorizedf("m"), Code::Unauthorized, 401),
        (error_envelope::forbiddenf("m"), Code::Forbidden, 403),
        (error_envelope::conflictf("m"), Code::Conflict, 409),
        (error_envelope::timeoutf("m"), Code::Timeout, 504),
        (error_envelope::unavailablef("m"), Code::Unavailable, 503),
    ];
    for (err, code, status) in cases {
        assert_eq!(err.code, code);
        assert_eq!(err.status, status);
        assert_eq!(err.message, "m");
    }
}

#[test]
fn test_newf_matches_new() {
    let a = Error::newf(Code::NotFound, 404, "user 9 not found");
    assert_eq!(a.code, Code::NotFound);
    assert_eq!(a.status, 404);
    assert_eq!(a.message, "user 9 not found");
}
