//! Helper constructors for common error types, the field-level validation
//! constructor, and the best-effort classification of arbitrary failure
//! text.

use vstd::prelude::*;
use crate::codes::Code;
use crate::error::{
    Error, spec_new, spec_with_details, spec_with_retryable, spec_wrap,
};
use crate::json::{JsonModel, JsonValue, spec_model_fields, lemma_model_fields_index};
use crate::text::{
    contains_chars, spec_contains, spec_lowered, str_to_chars, str_to_lower_chars,
};

verus! {

/// The details payload of a downstream error: one `service` member naming
/// the downstream service.
pub open spec fn spec_service_details(service: Seq<char>) -> JsonModel {
    JsonModel::Obj(seq![("service"@, JsonModel::Str(service))])
}

/// The details payload of a field-level validation error: one `fields`
/// member holding each field name with its message, in order.
pub open spec fn spec_fields_details(fields: Seq<(Seq<char>, Seq<char>)>) -> JsonModel {
    JsonModel::Obj(
        seq![
            ("fields"@, JsonModel::Obj(fields.map_values(|p: (Seq<char>, Seq<char>)| (p.0, JsonModel::Str(p.1))))),
        ],
    )
}

/// Whether a failure text reads as a timeout: its ASCII-lowercase form
/// contains `timeout` or `timed out`.
pub open spec fn spec_reads_as_timeout(message: Seq<char>) -> bool {
    spec_contains(spec_lowered(message), "timeout"@) || spec_contains(
        spec_lowered(message),
        "timed out"@,
    )
}

/// Whether a failure text reads as a cancellation: its ASCII-lowercase
/// form contains `cancel`.
pub open spec fn spec_reads_as_cancel(message: Seq<char>) -> bool {
    spec_contains(spec_lowered(message), "cancel"@)
}

impl Error {
    /// Creates an internal server error (500).
    pub fn internal(message: &str) -> (err: Self)
        ensures
            err@ == spec_with_retryable(spec_new(Code::Internal, 500, message@), false),
    {
        Self::new(Code::Internal, 500, message).with_retryable(false)
    }

    /// Creates a bad request error (400).
    pub fn bad_request(message: &str) -> (err: Self)
        ensures
            err@ == spec_with_retryable(spec_new(Code::BadRequest, 400, message@), false),
    {
        Self::new(Code::BadRequest, 400, message).with_retryable(false)
    }

    /// Creates a validation error (400).
    pub fn validation(message: &str) -> (err: Self)
        ensures
            err@ == spec_with_retryable(spec_new(Code::ValidationFailed, 400, message@), false),
    {
        Self::new(Code::ValidationFailed, 400, message).with_retryable(false)
    }

    /// Creates an unauthorized error (401).
    pub fn unauthorized(message: &str) -> (err: Self)
        ensures
            err@ == spec_with_retryable(spec_new(Code::Unauthorized, 401, message@), false),
    {
        Self::new(Code::Unauthorized, 401, message).with_retryable(false)
    }

    /// Creates a forbidden error (403).
    pub fn forbidden(message: &str) -> (err: Self)
        ensures
            err@ == spec_with_retryable(spec_new(Code::Forbidden, 403, message@), false),
    {
        Self::new(Code::Forbidden, 403, message).with_retryable(false)
    }

    /// Creates a not found error (404).
    pub fn not_found(message: &str) -> (err: Self)
        ensures
            err@ == spec_with_retryable(spec_new(Code::NotFound, 404, message@), false),
    {
        Self::new(Code::NotFound, 404, message).with_retryable(false)
    }

    /// Creates a method not allowed error (405).
    pub fn method_not_allowed(message: &str) -> (err: Self)
        ensures
            err@ == spec_with_retryable(spec_new(Code::MethodNotAllowed, 405, message@), false),
    {
        Self::new(Code::MethodNotAllowed, 405, message).with_retryable(false)
    }

    /// Creates a request timeout error (408).
    pub fn request_timeout(message: &str) -> (err: Self)
        ensures
            err@ == spec_with_retryable(spec_new(Code::RequestTimeout, 408, message@), true),
    {
        Self::new(Code::RequestTimeout, 408, message).with_retryable(true)
    }

    /// Creates a conflict error (409).
    pub fn conflict(message: &str) -> (err: Self)
        ensures
            err@ == spec_with_retryable(spec_new(Code::Conflict, 409, message@), false),
    {
        Self::new(Code::Conflict, 409, message).with_retryable(false)
    }

    /// Creates a gone error (410).
    pub fn gone(message: &str) -> (err: Self)
        ensures
            err@ == spec_with_retryable(spec_new(Code::Gone, 410, message@), false),
    {
        Self::new(Code::Gone, 410, message).with_retryable(false)
    }

    /// Creates a payload too large error (413).
    pub fn payload_too_large(message: &str) -> (err: Self)
        ensures
            err@ == spec_with_retryable(spec_new(Code::PayloadTooLarge, 413, message@), false),
    {
        Self::new(Code::PayloadTooLarge, 413, message).with_retryable(false)
    }

    /// Creates an unprocessable entity error (422).
    pub fn unprocessable_entity(message: &str) -> (err: Self)
        ensures
            err@ == spec_with_retryable(
                spec_new(Code::UnprocessableEntity, 422, message@),
                false,
            ),
    {
        Self::new(Code::UnprocessableEntity, 422, message).with_retryable(false)
    }

    /// Creates a rate limited error (429).
    pub fn rate_limited(message: &str) -> (err: Self)
        ensures
            err@ == spec_with_retryable(spec_new(Code::RateLimited, 429, message@), true),
    {
        Self::new(Code::RateLimited, 429, message).with_retryable(true)
    }

    /// Creates a timeout error (504).
    pub fn timeout(message: &str) -> (err: Self)
        ensures
            err@ == spec_with_retryable(spec_new(Code::Timeout, 504, message@), true),
    {
        Self::new(Code::Timeout, 504, message).with_retryable(true)
    }

    /// Creates an unavailable error (503).
    pub fn unavailable(message: &str) -> (err: Self)
        ensures
            err@ == spec_with_retryable(spec_new(Code::Unavailable, 503, message@), true),
    {
        Self::new(Code::Unavailable, 503, message).with_retryable(true)
    }

    /// Creates a downstream error (502): retryable, wrapping the cause,
    /// with a `service` detail when a non-empty service name is supplied.
    pub fn downstream(service: &str, cause: &str) -> (err: Self)
        ensures
            service@.len() == 0 ==> err@ == spec_with_retryable(
                spec_wrap(Code::DownstreamError, 502, ""@, cause@),
                true,
            ),
            service@.len() > 0 ==> err@ == spec_with_retryable(
                spec_with_details(
                    spec_wrap(Code::DownstreamError, 502, ""@, cause@),
                    spec_service_details(service@),
                ),
                true,
            ),
    {
        let mut err = Self::wrap(Code::DownstreamError, 502, "", cause);
        if !service.is_empty() {
            err = err.with_details(service_details(service));
        }
        err.with_retryable(true)
    }

    /// Creates a downstream timeout error (504): retryable, wrapping the
    /// cause, with a `service` detail when a non-empty service name is
    /// supplied.
    pub fn downstream_timeout(service: &str, cause: &str) -> (err: Self)
        ensures
            service@.len() == 0 ==> err@ == spec_with_retryable(
                spec_wrap(Code::DownstreamTimeout, 504, ""@, cause@),
                true,
            ),
            service@.len() > 0 ==> err@ == spec_with_retryable(
                spec_with_details(
                    spec_wrap(Code::DownstreamTimeout, 504, ""@, cause@),
                    spec_service_details(service@),
                ),
                true,
            ),
    {
        let mut err = Self::wrap(Code::DownstreamTimeout, 504, "", cause);
        if !service.is_empty() {
            err = err.with_details(service_details(service));
        }
        err.with_retryable(true)
    }
}

/// Builds the `{"service": ...}` details value.
fn service_details(service: &str) -> (details: JsonValue)
    ensures
        details@ == spec_service_details(service@),
{
    let mut members: Vec<(String, JsonValue)> = Vec::new();
    members.push(("service".to_owned(), JsonValue::Str(service.to_owned())));
    let details = JsonValue::Object(members);
    proof {
        reveal_with_fuel(spec_model_fields, 3);
        assert(spec_model_fields(members@, members@.len() as int) =~= seq![
            ("service"@, JsonModel::Str(service@)),
        ]);
    }
    details
}

/// Creates an internal server error with a preformatted message.
pub fn internalf(message: &str) -> (err: Error)
    ensures
        err@ == spec_with_retryable(spec_new(Code::Internal, 500, message@), false),
{
    Error::internal(message)
}

/// Creates a bad request error with a preformatted message.
pub fn bad_requestf(message: &str) -> (err: Error)
    ensures
        err@ == spec_with_retryable(spec_new(Code::BadRequest, 400, message@), false),
{
    Error::bad_request(message)
}

/// Creates a not found error with a preformatted message.
pub fn not_foundf(message: &str) -> (err: Error)
    ensures
        err@ == spec_with_retryable(spec_new(Code::NotFound, 404, message@), false),
{
    Error::not_found(message)
}

/// Creates an unauthorized error with a preformatted message.
pub fn unauthorizedf(message: &str) -> (err: Error)
    ensures
        err@ == spec_with_retryable(spec_new(Code::Unauthorized, 401, message@), false),
{
    Error::unauthorized(message)
}

/// Creates a forbidden error with a preformatted message.
pub fn forbiddenf(message: &str) -> (err: Error)
    ensures
        err@ == spec_with_retryable(spec_new(Code::Forbidden, 403, message@), false),
{
    Error::forbidden(message)
}

/// Creates a conflict error with a preformatted message.
pub fn conflictf(message: &str) -> (err: Error)
    ensures
        err@ == spec_with_retryable(spec_new(Code::Conflict, 409, message@), false),
{
    Error::conflict(message)
}

/// Creates a timeout error with a preformatted message.
pub fn timeoutf(message: &str) -> (err: Error)
    ensures
        err@ == spec_with_retryable(spec_new(Code::Timeout, 504, message@), true),
{
    Error::timeout(message)
}

/// Creates an unavailable error with a preformatted message.
pub fn unavailablef(message: &str) -> (err: Error)
    ensures
        err@ == spec_with_retryable(spec_new(Code::Unavailable, 503, message@), true),
{
    Error::unavailable(message)
}

/// Field-level validation errors: each field name with its message.
pub type FieldErrors = Vec<(String, String)>;

/// Creates a validation error with field-level details: non-retryable,
/// with the code's default message, and the given mapping nested under a
/// `fields` key.
pub fn validation(fields: FieldErrors) -> (err: Error)
    ensures
        err@ == spec_with_retryable(
            spec_with_details(
                spec_new(Code::ValidationFailed, 400, ""@),
                spec_fields_details(
                    fields@.map_values(|p: (String, String)| (p.0@, p.1@)),
                ),
            ),
            false,
        ),
{
    let mut members: Vec<(String, JsonValue)> = Vec::new();
    let mut i: usize = 0;
    while i < fields.len()
        invariant
            i <= fields@.len(),
            members@.len() == i,
            forall|j: int|
                0 <= j < i ==> #[trigger] members@[j].0@ == fields@[j].0@ && members@[j].1
                    == JsonValue::Str(fields@[j].1),
        decreases fields@.len() - i,
    {
        members.push((fields[i].0.clone(), JsonValue::Str(fields[i].1.clone())));
        i += 1;
    }
    let mut outer: Vec<(String, JsonValue)> = Vec::new();
    outer.push(("fields".to_owned(), JsonValue::Object(members)));
    let err = Error::new(Code::ValidationFailed, 400, "").with_details(
        JsonValue::Object(outer),
    ).with_retryable(false);
    proof {
        reveal_with_fuel(spec_model_fields, 3);
        let pairs = fields@.map_values(|p: (String, String)| (p.0@, p.1@));
        lemma_model_fields_index(members@, members@.len() as int);
        assert(spec_model_fields(members@, members@.len() as int) =~= pairs.map_values(
            |p: (Seq<char>, Seq<char>)| (p.0, JsonModel::Str(p.1)),
        ));
        assert(spec_model_fields(outer@, outer@.len() as int) =~= seq![
            (
                "fields"@,
                JsonModel::Obj(
                    pairs.map_values(|p: (Seq<char>, Seq<char>)| (p.0, JsonModel::Str(p.1))),
                ),
            ),
        ]);
    }
    err
}

/// Maps arbitrary failure text into an error, by best-effort
/// classification: text reading as a timeout becomes a timeout error, text
/// reading as a cancellation a non-retryable canceled error, and anything
/// else a non-retryable internal error wrapping the text as its cause.
pub fn from(message: &str) -> (err: Error)
    ensures
        spec_reads_as_timeout(message@) ==> err@ == spec_with_retryable(
            spec_new(Code::Timeout, 504, ""@),
            true,
        ),
        !spec_reads_as_timeout(message@) && spec_reads_as_cancel(message@) ==> err@
            == spec_with_retryable(spec_new(Code::Canceled, 499, ""@), false),
        !spec_reads_as_timeout(message@) && !spec_reads_as_cancel(message@) ==> err@
            == spec_with_retryable(spec_wrap(Code::Internal, 500, ""@, message@), false),
{
    let lowered = str_to_lower_chars(message);
    let timeout_needle = str_to_chars("timeout");
    let timed_out_needle = str_to_chars("timed out");
    if contains_chars(&lowered, &timeout_needle) || contains_chars(&lowered, &timed_out_needle) {
        return Error::timeout("");
    }
    let cancel_needle = str_to_chars("cancel");
    if contains_chars(&lowered, &cancel_needle) {
        return Error::new(Code::Canceled, 499, "").with_retryable(false);
    }
    Error::wrap(Code::Internal, 500, "", message).with_retryable(false)
}

/// Checks if an error has the given code.
pub fn is(err: &Error, code: Code) -> (has_code: bool)
    ensures
        has_code == (err@.code == code),
{
    err.code == code
}

} // verus!
