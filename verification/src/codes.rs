//! The closed registry of error codes and their per-code defaults.
//!
//! Every [`Code`] maps to a default HTTP status, a default retryability
//! flag, and a default human-readable message. The mappings are total:
//! adding a variant forces every match below to be extended.

use vstd::prelude::*;

verus! {

/// Machine-readable error codes that remain stable across releases.
#[derive(Debug, Clone, Copy, PartialEq, Eq, Hash, Structural)]
pub enum Code {
    /// Internal server error (500).
    Internal,
    /// Bad request error (400).
    BadRequest,
    /// Resource not found (404).
    NotFound,
    /// HTTP method not allowed (405).
    MethodNotAllowed,
    /// Resource permanently deleted (410).
    Gone,
    /// Resource conflict, often due to concurrent modification (409).
    Conflict,
    /// Request payload exceeds size limit (413).
    PayloadTooLarge,
    /// Request timed out before completion (408).
    RequestTimeout,
    /// Too many requests, client should retry later (429).
    RateLimited,
    /// Service temporarily unavailable (503).
    Unavailable,
    /// Input validation failed (400).
    ValidationFailed,
    /// Authentication required or credentials invalid (401).
    Unauthorized,
    /// Authenticated but not permitted to access resource (403).
    Forbidden,
    /// Request is well-formed but semantically invalid (422).
    UnprocessableEntity,
    /// Gateway or processing timeout (504).
    Timeout,
    /// Request was canceled by client (499).
    Canceled,
    /// Downstream service returned an error (502).
    DownstreamError,
    /// Downstream service timed out (504).
    DownstreamTimeout,
}

/// The default HTTP status of each code.
pub open spec fn spec_default_status(code: Code) -> u16 {
    match code {
        Code::Internal => 500,
        Code::BadRequest => 400,
        Code::NotFound => 404,
        Code::MethodNotAllowed => 405,
        Code::Gone => 410,
        Code::Conflict => 409,
        Code::PayloadTooLarge => 413,
        Code::RequestTimeout => 408,
        Code::RateLimited => 429,
        Code::Unavailable => 503,
        Code::ValidationFailed => 400,
        Code::Unauthorized => 401,
        Code::Forbidden => 403,
        Code::UnprocessableEntity => 422,
        Code::Timeout => 504,
        Code::Canceled => 499,
        Code::DownstreamError => 502,
        Code::DownstreamTimeout => 504,
    }
}

/// The default retryability of each code: true exactly for the timeout-like
/// and load-shedding codes.
pub open spec fn spec_is_retryable_default(code: Code) -> bool {
    match code {
        Code::Timeout => true,
        Code::DownstreamTimeout => true,
        Code::Unavailable => true,
        Code::RateLimited => true,
        Code::RequestTimeout => true,
        _ => false,
    }
}

/// The default human-readable message of each code.
pub open spec fn spec_default_message(code: Code) -> Seq<char> {
    match code {
        Code::Internal => "Internal error"@,
        Code::BadRequest => "Bad request"@,
        Code::ValidationFailed => "Invalid input"@,
        Code::Unauthorized => "Unauthorized"@,
        Code::Forbidden => "Forbidden"@,
        Code::NotFound => "Not found"@,
        Code::Gone => "Resource no longer exists"@,
        Code::Conflict => "Conflict"@,
        Code::PayloadTooLarge => "Payload too large"@,
        Code::UnprocessableEntity => "Unprocessable entity"@,
        Code::RateLimited => "Rate limited"@,
        Code::RequestTimeout => "Request timed out"@,
        Code::Timeout => "Request timed out"@,
        Code::DownstreamTimeout => "Request timed out"@,
        Code::Unavailable => "Service unavailable"@,
        Code::Canceled => "Request canceled"@,
        Code::DownstreamError => "Downstream service error"@,
        Code::MethodNotAllowed => "Method not allowed"@,
    }
}

/// The upper-snake-case name under which each code appears on the wire.
pub open spec fn spec_wire_name(code: Code) -> Seq<char> {
    match code {
        Code::Internal => "INTERNAL"@,
        Code::BadRequest => "BAD_REQUEST"@,
        Code::NotFound => "NOT_FOUND"@,
        Code::MethodNotAllowed => "METHOD_NOT_ALLOWED"@,
        Code::Gone => "GONE"@,
        Code::Conflict => "CONFLICT"@,
        Code::PayloadTooLarge => "PAYLOAD_TOO_LARGE"@,
        Code::RequestTimeout => "REQUEST_TIMEOUT"@,
        Code::RateLimited => "RATE_LIMITED"@,
        Code::Unavailable => "UNAVAILABLE"@,
        Code::ValidationFailed => "VALIDATION_FAILED"@,
        Code::Unauthorized => "UNAUTHORIZED"@,
        Code::Forbidden => "FORBIDDEN"@,
        Code::UnprocessableEntity => "UNPROCESSABLE_ENTITY"@,
        Code::Timeout => "TIMEOUT"@,
        Code::Canceled => "CANCELED"@,
        Code::DownstreamError => "DOWNSTREAM_ERROR"@,
        Code::DownstreamTimeout => "DOWNSTREAM_TIMEOUT"@,
    }
}

/// The variant name of each code, as a debugging label.
pub open spec fn spec_label(code: Code) -> Seq<char> {
    match code {
        Code::Internal => "Internal"@,
        Code::BadRequest => "BadRequest"@,
        Code::NotFound => "NotFound"@,
        Code::MethodNotAllowed => "MethodNotAllowed"@,
        Code::Gone => "Gone"@,
        Code::Conflict => "Conflict"@,
        Code::PayloadTooLarge => "PayloadTooLarge"@,
        Code::RequestTimeout => "RequestTimeout"@,
        Code::RateLimited => "RateLimited"@,
        Code::Unavailable => "Unavailable"@,
        Code::ValidationFailed => "ValidationFailed"@,
        Code::Unauthorized => "Unauthorized"@,
        Code::Forbidden => "Forbidden"@,
        Code::UnprocessableEntity => "UnprocessableEntity"@,
        Code::Timeout => "Timeout"@,
        Code::Canceled => "Canceled"@,
        Code::DownstreamError => "DownstreamError"@,
        Code::DownstreamTimeout => "DownstreamTimeout"@,
    }
}

impl Code {
    /// Returns the default HTTP status code for this error code.
    pub fn default_status(&self) -> (status: u16)
        ensures
            status == spec_default_status(*self),
    {
        match self {
            Code::Internal => 500,
            Code::BadRequest => 400,
            Code::NotFound => 404,
            Code::MethodNotAllowed => 405,
            Code::Gone => 410,
            Code::Conflict => 409,
            Code::PayloadTooLarge => 413,
            Code::RequestTimeout => 408,
            Code::RateLimited => 429,
            Code::Unavailable => 503,
            Code::ValidationFailed => 400,
            Code::Unauthorized => 401,
            Code::Forbidden => 403,
            Code::UnprocessableEntity => 422,
            Code::Timeout => 504,
            Code::Canceled => 499,
            Code::DownstreamError => 502,
            Code::DownstreamTimeout => 504,
        }
    }

    /// Returns whether this error is retryable by default.
    pub fn is_retryable_default(&self) -> (retryable: bool)
        ensures
            retryable == spec_is_retryable_default(*self),
    {
        match self {
            Code::Timeout => true,
            Code::DownstreamTimeout => true,
            Code::Unavailable => true,
            Code::RateLimited => true,
            Code::RequestTimeout => true,
            _ => false,
        }
    }

    /// Returns a default human-readable message for this code.
    pub fn default_message(&self) -> (message: &'static str)
        ensures
            message@ == spec_default_message(*self),
    {
        match self {
            Code::Internal => "Internal error",
            Code::BadRequest => "Bad request",
            Code::ValidationFailed => "Invalid input",
            Code::Unauthorized => "Unauthorized",
            Code::Forbidden => "Forbidden",
            Code::NotFound => "Not found",
            Code::Gone => "Resource no longer exists",
            Code::Conflict => "Conflict",
            Code::PayloadTooLarge => "Payload too large",
            Code::UnprocessableEntity => "Unprocessable entity",
            Code::RateLimited => "Rate limited",
            Code::RequestTimeout => "Request timed out",
            Code::Timeout => "Request timed out",
            Code::DownstreamTimeout => "Request timed out",
            Code::Unavailable => "Service unavailable",
            Code::Canceled => "Request canceled",
            Code::DownstreamError => "Downstream service error",
            Code::MethodNotAllowed => "Method not allowed",
        }
    }

    /// Returns the upper-snake-case name under which this code appears on
    /// the wire.
    pub fn wire_name(&self) -> (name: &'static str)
        ensures
            name@ == spec_wire_name(*self),
    {
        match self {
            Code::Internal => "INTERNAL",
            Code::BadRequest => "BAD_REQUEST",
            Code::NotFound => "NOT_FOUND",
            Code::MethodNotAllowed => "METHOD_NOT_ALLOWED",
            Code::Gone => "GONE",
            Code::Conflict => "CONFLICT",
            Code::PayloadTooLarge => "PAYLOAD_TOO_LARGE",
            Code::RequestTimeout => "REQUEST_TIMEOUT",
            Code::RateLimited => "RATE_LIMITED",
            Code::Unavailable => "UNAVAILABLE",
            Code::ValidationFailed => "VALIDATION_FAILED",
            Code::Unauthorized => "UNAUTHORIZED",
            Code::Forbidden => "FORBIDDEN",
            Code::UnprocessableEntity => "UNPROCESSABLE_ENTITY",
            Code::Timeout => "TIMEOUT",
            Code::Canceled => "CANCELED",
            Code::DownstreamError => "DOWNSTREAM_ERROR",
            Code::DownstreamTimeout => "DOWNSTREAM_TIMEOUT",
        }
    }

    /// Returns the variant name of this code, as a debugging label.
    pub fn label(&self) -> (name: &'static str)
        ensures
            name@ == spec_label(*self),
    {
        match self {
            Code::Internal => "Internal",
            Code::BadRequest => "BadRequest",
            Code::NotFound => "NotFound",
            Code::MethodNotAllowed => "MethodNotAllowed",
            Code::Gone => "Gone",
            Code::Conflict => "Conflict",
            Code::PayloadTooLarge => "PayloadTooLarge",
            Code::RequestTimeout => "RequestTimeout",
            Code::RateLimited => "RateLimited",
            Code::Unavailable => "Unavailable",
            Code::ValidationFailed => "ValidationFailed",
            Code::Unauthorized => "Unauthorized",
            Code::Forbidden => "Forbidden",
            Code::UnprocessableEntity => "UnprocessableEntity",
            Code::Timeout => "Timeout",
            Code::Canceled => "Canceled",
            Code::DownstreamError => "DownstreamError",
            Code::DownstreamTimeout => "DownstreamTimeout",
        }
    }
}

} // verus!
