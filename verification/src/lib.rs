//! A tiny, framework-agnostic error envelope for HTTP APIs.
//!
//! The crate defines a structured error value that standardizes error
//! responses across HTTP services: a stable machine-readable code, a
//! human-readable message, optional structured details, an optional trace
//! identifier, and retry signals, together with the canonical wire
//! serialization of the whole record.

pub mod codes;
pub mod error;
pub mod helpers;
pub mod json;
pub mod text;

pub use codes::Code;
pub use error::Error;
pub use helpers::FieldErrors;
pub use helpers::bad_requestf;
pub use helpers::conflictf;
pub use helpers::forbiddenf;
pub use helpers::from;
pub use helpers::internalf;
pub use helpers::is;
pub use helpers::not_foundf;
pub use helpers::timeoutf;
pub use helpers::unauthorizedf;
pub use helpers::unavailablef;
pub use helpers::validation;
