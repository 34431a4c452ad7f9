//! The error envelope: construction, builder-style mutation, accessors,
//! and the canonical wire serialization.

use vstd::prelude::*;
use crate::codes::{
    Code, spec_default_message, spec_default_status, spec_is_retryable_default, spec_label,
    spec_wire_name,
};
use crate::json::{JsonModel, JsonValue, spec_json, spec_model, spec_quoted, write_json,
    push_quoted};
use crate::text::{push_retry_after_text, spec_retry_after_text};

verus! {

/// The mathematical model of an [`Error`]: every field as a plain value or
/// character sequence.
#[verifier::ext_equal]
pub struct ErrorModel {
    pub code: Code,
    pub message: Seq<char>,
    pub status: u16,
    pub details: Option<JsonModel>,
    pub trace_id: Option<Seq<char>>,
    pub retryable: bool,
    pub retry_after: Option<u64>,
    pub cause: Option<Seq<char>>,
}

/// Structured error envelope for HTTP APIs.
///
/// The envelope is mutated in builder style: every mutator consumes the
/// value and returns the transformed one, so a value another owner still
/// holds is never changed in place.
#[derive(Debug)]
pub struct Error {
    pub code: Code,
    pub message: String,
    pub details: Option<JsonValue>,
    pub trace_id: Option<String>,
    pub retryable: bool,
    // Not serialized into the body; consumed by the transport boundary.
    pub status: u16,
    /// Retry-after hint, in whole seconds.
    pub retry_after: Option<u64>,
    /// The cause is captured eagerly as text, so the envelope stays
    /// independently clonable and transportable.
    pub cause_message: Option<String>,
}

impl View for Error {
    type V = ErrorModel;

    open spec fn view(&self) -> ErrorModel {
        ErrorModel {
            code: self.code,
            message: self.message@,
            status: self.status,
            details: match self.details {
                Some(d) => Some(spec_model(d)),
                None => None,
            },
            trace_id: match self.trace_id {
                Some(t) => Some(t@),
                None => None,
            },
            retryable: self.retryable,
            retry_after: self.retry_after,
            cause: match self.cause_message {
                Some(c) => Some(c@),
                None => None,
            },
        }
    }
}

/// The model of a newly constructed error: an empty message falls back to
/// the code's default message, a zero status to the code's default status,
/// retryability to the code's default, and every optional field starts
/// empty.
pub open spec fn spec_new(code: Code, status: u16, message: Seq<char>) -> ErrorModel {
    ErrorModel {
        code,
        message: if message.len() == 0 {
            spec_default_message(code)
        } else {
            message
        },
        status: if status == 0 {
            spec_default_status(code)
        } else {
            status
        },
        details: None,
        trace_id: None,
        retryable: spec_is_retryable_default(code),
        retry_after: None,
        cause: None,
    }
}

/// The model of a wrapping construction: as [`spec_new`], with the cause
/// text captured.
pub open spec fn spec_wrap(code: Code, status: u16, message: Seq<char>, cause: Seq<char>)
    -> ErrorModel {
    ErrorModel { cause: Some(cause), ..spec_new(code, status, message) }
}

/// The model of `with_details`: only the details field changes.
pub open spec fn spec_with_details(m: ErrorModel, details: JsonModel) -> ErrorModel {
    ErrorModel { details: Some(details), ..m }
}

/// The model of `with_trace_id`: only the trace id changes.
pub open spec fn spec_with_trace_id(m: ErrorModel, trace_id: Seq<char>) -> ErrorModel {
    ErrorModel { trace_id: Some(trace_id), ..m }
}

/// The model of `with_retryable`: only the retryable flag changes.
pub open spec fn spec_with_retryable(m: ErrorModel, retryable: bool) -> ErrorModel {
    ErrorModel { retryable, ..m }
}

/// The model of `with_status`: a non-zero status overrides, zero is
/// ignored.
pub open spec fn spec_with_status(m: ErrorModel, status: u16) -> ErrorModel {
    if status == 0 {
        m
    } else {
        ErrorModel { status, ..m }
    }
}

/// The model of `with_retry_after`: only the retry-after hint changes.
pub open spec fn spec_with_retry_after(m: ErrorModel, secs: u64) -> ErrorModel {
    ErrorModel { retry_after: Some(secs), ..m }
}

/// The canonical wire body of an error: always `code`, `message` and
/// `retryable`, with `details`, `trace_id` and `retry_after` present
/// exactly when set, in this fixed field order, and the retry-after hint
/// rendered in the human-readable duration format.
pub open spec fn spec_wire_body(m: ErrorModel) -> Seq<char> {
    "{\"code\":\""@ + spec_wire_name(m.code) + "\",\"message\":"@ + spec_quoted(m.message)
        + (match m.details {
        Some(d) => ",\"details\":"@ + spec_json(d),
        None => Seq::empty(),
    }) + (match m.trace_id {
        Some(t) => ",\"trace_id\":"@ + spec_quoted(t),
        None => Seq::empty(),
    }) + ",\"retryable\":"@ + (if m.retryable {
        "true"@
    } else {
        "false"@
    }) + (match m.retry_after {
        Some(s) => ",\"retry_after\":\""@ + spec_retry_after_text(s) + "\""@,
        None => Seq::empty(),
    }) + "}"@
}

/// The display text of an error: the code's label, the message, and the
/// cause text in parentheses when one was captured.
pub open spec fn spec_display_text(m: ErrorModel) -> Seq<char> {
    spec_label(m.code) + ": "@ + m.message + (match m.cause {
        Some(c) => " ("@ + c + ")"@,
        None => Seq::empty(),
    })
}

impl Error {
    /// Creates a new error with the given code, status, and message.
    ///
    /// An empty message is replaced by the code's default message and a
    /// zero status by the code's default status; retryability starts at
    /// the code's default and every optional field starts empty.
    pub fn new(code: Code, status: u16, message: &str) -> (err: Self)
        ensures
            err@ == spec_new(code, status, message@),
    {
        let owned_message: String = if message.is_empty() {
            code.default_message().to_owned()
        } else {
            message.to_owned()
        };
        let resolved_status: u16 = if status == 0 {
            code.default_status()
        } else {
            status
        };
        let err = Error {
            code,
            message: owned_message,
            details: None,
            trace_id: None,
            retryable: code.is_retryable_default(),
            status: resolved_status,
            retry_after: None,
            cause_message: None,
        };
        proof {
            assert(err@ =~= spec_new(code, status, message@));
        }
        err
    }

    /// Creates a new error with a formatted message.
    ///
    /// This is a semantic alias for `new` that signals the message is
    /// typically built up elsewhere before the call.
    pub fn newf(code: Code, status: u16, message: &str) -> (err: Self)
        ensures
            err@ == spec_new(code, status, message@),
    {
        Self::new(code, status, message)
    }

    /// Creates a new error that wraps an underlying cause, captured as its
    /// rendered text.
    pub fn wrap(code: Code, status: u16, message: &str, cause: &str) -> (err: Self)
        ensures
            err@ == spec_wrap(code, status, message@, cause@),
    {
        let mut err = Self::new(code, status, message);
        err.cause_message = Some(cause.to_owned());
        proof {
            assert(err@ =~= spec_wrap(code, status, message@, cause@));
        }
        err
    }

    /// Adds structured details to the error.
    pub fn with_details(self, details: JsonValue) -> (err: Self)
        ensures
            err@ == spec_with_details(self@, spec_model(details)),
    {
        let err = Error { details: Some(details), ..self };
        proof {
            assert(err@ =~= spec_with_details(self@, spec_model(details)));
        }
        err
    }

    /// Adds a trace ID for distributed tracing.
    pub fn with_trace_id(self, trace_id: &str) -> (err: Self)
        ensures
            err@ == spec_with_trace_id(self@, trace_id@),
    {
        let err = Error { trace_id: Some(trace_id.to_owned()), ..self };
        proof {
            assert(err@ =~= spec_with_trace_id(self@, trace_id@));
        }
        err
    }

    /// Sets whether the error is retryable.
    pub fn with_retryable(self, retryable: bool) -> (err: Self)
        ensures
            err@ == spec_with_retryable(self@, retryable),
    {
        let err = Error { retryable, ..self };
        proof {
            assert(err@ =~= spec_with_retryable(self@, retryable));
        }
        err
    }

    /// Overrides the HTTP status code; an argument of zero is ignored.
    pub fn with_status(self, status: u16) -> (err: Self)
        ensures
            err@ == spec_with_status(self@, status),
    {
        if status != 0 {
            let err = Error { status, ..self };
            proof {
                assert(err@ =~= spec_with_status(self@, status));
            }
            err
        } else {
            self
        }
    }

    /// Sets the retry-after hint, in whole seconds, for rate-limited
    /// responses.
    pub fn with_retry_after(self, secs: u64) -> (err: Self)
        ensures
            err@ == spec_with_retry_after(self@, secs),
    {
        let err = Error { retry_after: Some(secs), ..self };
        proof {
            assert(err@ =~= spec_with_retry_after(self@, secs));
        }
        err
    }

    /// Returns the cause message if available.
    pub fn cause(&self) -> (cause: Option<&str>)
        ensures
            match cause {
                Some(c) => self@.cause == Some(c@),
                None => self@.cause is None,
            },
    {
        match &self.cause_message {
            Some(c) => Some(c.as_str()),
            None => None,
        }
    }

    /// Returns the HTTP status code.
    pub fn status(&self) -> (status: u16)
        ensures
            status == self@.status,
    {
        self.status
    }

    /// Returns the canonical wire body of this error.
    pub fn to_json(&self) -> (body: String)
        ensures
            body@ == spec_wire_body(self@),
    {
        let mut out = String::new();
        out.append("{\"code\":\"");
        out.append(self.code.wire_name());
        out.append("\",\"message\":");
        push_quoted(&mut out, self.message.as_str());
        if let Some(d) = &self.details {
            out.append(",\"details\":");
            write_json(d, &mut out);
        }
        if let Some(t) = &self.trace_id {
            out.append(",\"trace_id\":");
            push_quoted(&mut out, t.as_str());
        }
        out.append(",\"retryable\":");
        if self.retryable {
            out.append("true");
        } else {
            out.append("false");
        }
        if let Some(s) = self.retry_after {
            out.append(",\"retry_after\":\"");
            push_retry_after_text(&mut out, s);
            out.append("\"");
        }
        out.append("}");
        proof {
            assert(out@ =~= spec_wire_body(self@));
        }
        out
    }

    /// Returns the display text of this error: the code's label, the
    /// message, and the captured cause, if any, in parentheses.
    pub fn display_string(&self) -> (text: String)
        ensures
            text@ == spec_display_text(self@),
    {
        let mut out = String::new();
        out.append(self.code.label());
        out.append(": ");
        out.append(self.message.as_str());
        if let Some(c) = &self.cause_message {
            out.append(" (");
            out.append(c.as_str());
            out.append(")");
        }
        proof {
            assert(out@ =~= spec_display_text(self@));
        }
        out
    }
}

impl Clone for Error {
    /// A deep copy: the clone's model equals the original's, so mutating
    /// the clone can never be observed through the original.
    fn clone(&self) -> (res: Self)
        ensures
            res@ == self@,
    {
        let res = Error {
            code: self.code,
            message: self.message.clone(),
            details: match &self.details {
                Some(d) => Some(d.clone()),
                None => None,
            },
            trace_id: match &self.trace_id {
                Some(t) => Some(t.clone()),
                None => None,
            },
            retryable: self.retryable,
            status: self.status,
            retry_after: self.retry_after,
            cause_message: match &self.cause_message {
                Some(c) => Some(c.clone()),
                None => None,
            },
        };
        proof {
            assert(res@ =~= self@);
        }
        res
    }
}

/// The whole-second value a transport boundary puts into a retry header:
/// the hint itself, raised to a minimum of one second.
pub fn retry_after_header_secs(secs: u64) -> (header: u64)
    ensures
        header == if secs == 0 {
            1u64
        } else {
            secs
        },
{
    if secs == 0 {
        1
    } else {
        secs
    }
}

/// An error with no details, trace id or retry-after hint serializes to a
/// body holding exactly the `code`, `message` and `retryable` members and
/// nothing else.
pub proof fn lemma_minimal_wire_body(m: ErrorModel)
    requires
        m.details is None,
        m.trace_id is None,
        m.retry_after is None,
    ensures
        spec_wire_body(m) == "{\"code\":\""@ + spec_wire_name(m.code) + "\",\"message\":"@
            + spec_quoted(m.message) + ",\"retryable\":"@ + (if m.retryable {
            "true"@
        } else {
            "false"@
        }) + "}"@,
{
    assert(spec_wire_body(m) =~= "{\"code\":\""@ + spec_wire_name(m.code) + "\",\"message\":"@
        + spec_quoted(m.message) + ",\"retryable\":"@ + (if m.retryable {
        "true"@
    } else {
        "false"@
    }) + "}"@);
}

/// Applying the same mutator twice keeps only the last value; for the
/// status override, a zero second argument is ignored and the first kept.
pub proof fn lemma_mutators_last_value_wins(
    m: ErrorModel,
    d1: JsonModel,
    d2: JsonModel,
    t1: Seq<char>,
    t2: Seq<char>,
    r1: bool,
    r2: bool,
    s1: u16,
    s2: u16,
    a1: u64,
    a2: u64,
)
    ensures
        spec_with_details(spec_with_details(m, d1), d2) == spec_with_details(m, d2),
        spec_with_trace_id(spec_with_trace_id(m, t1), t2) == spec_with_trace_id(m, t2),
        spec_with_retryable(spec_with_retryable(m, r1), r2) == spec_with_retryable(m, r2),
        spec_with_retry_after(spec_with_retry_after(m, a1), a2) == spec_with_retry_after(m, a2),
        s2 != 0 ==> spec_with_status(spec_with_status(m, s1), s2) == spec_with_status(m, s2),
        s2 == 0 ==> spec_with_status(spec_with_status(m, s1), s2) == spec_with_status(m, s1),
{
}

/// Every mutator changes its own field alone: code, message, status and
/// the other fields of the result are those of the input, except the one
/// the mutator is named for.
pub proof fn lemma_mutators_frame(m: ErrorModel, d: JsonModel, t: Seq<char>, r: bool, s: u16, a: u64)
    ensures
        spec_with_details(m, d) == (ErrorModel { details: Some(d), ..m }),
        spec_with_trace_id(m, t) == (ErrorModel { trace_id: Some(t), ..m }),
        spec_with_retryable(m, r) == (ErrorModel { retryable: r, ..m }),
        spec_with_retry_after(m, a) == (ErrorModel { retry_after: Some(a), ..m }),
        s != 0 ==> spec_with_status(m, s) == (ErrorModel { status: s, ..m }),
        s == 0 ==> spec_with_status(m, s) == m,
{
}

} // verus!
