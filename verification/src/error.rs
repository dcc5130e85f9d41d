//! Error taxonomy of the core: client errors (invalid input, violated
//! preconditions such as "already onboarded"), infrastructure errors
//! (persistence, hashing, database), engine transport errors, and the
//! distinct "capability not yet supported" error, so an unimplemented
//! backend is never mistaken for a connection problem.

use vstd::prelude::*;

verus! {

/// An error surfaced by the core. `Message` carries an HTTP-style
/// status code chosen by the raiser; the other variants are always
/// server-side failures.
#[derive(Debug)]
pub enum ApiError {
    /// A caller-facing error with an explicit status code.
    Message(u16, String),
    /// An infrastructure failure (persistence, hashing, database).
    Internal(String),
    /// A transport failure while talking to the container engine.
    Engine(String),
    /// A capability that no backend implements yet.
    Unsupported(String),
}

impl ApiError {
    /// True of errors reported to the caller as their own fault:
    /// exactly the `Message` variants with a 4xx status code.
    pub open spec fn is_client_error(&self) -> bool {
        match *self {
            ApiError::Message(code, _) => 400 <= code < 500,
            _ => false,
        }
    }

    /// The status code an HTTP boundary would attach to this error.
    pub open spec fn spec_status_code(&self) -> u16 {
        match *self {
            ApiError::Message(code, _) => code,
            _ => 500,
        }
    }

    /// Builds a caller-facing error with the given status code.
    pub fn message(code: u16, msg: &str) -> (r: Self)
        ensures
            r matches ApiError::Message(c, m) && c == code && m@ == msg@,
            400 <= code < 500 ==> r.is_client_error(),
    {
        ApiError::Message(code, msg.to_owned())
    }

    /// Status code of the error; `Message` keeps the code it was
    /// raised with, everything else is an internal server error.
    pub fn status_code(&self) -> (code: u16)
        ensures
            code == self.spec_status_code(),
    {
        match self {
            ApiError::Message(code, _) => *code,
            _ => 500,
        }
    }

    /// The human-readable description carried by the error.
    pub fn describe(&self) -> (msg: &str)
        ensures
            msg@ == self.spec_describe(),
    {
        match self {
            ApiError::Message(_, msg) => msg.as_str(),
            ApiError::Internal(msg) => msg.as_str(),
            ApiError::Engine(msg) => msg.as_str(),
            ApiError::Unsupported(msg) => msg.as_str(),
        }
    }

    /// The description as a sequence of characters.
    pub open spec fn spec_describe(&self) -> Seq<char> {
        match *self {
            ApiError::Message(_, msg) => msg@,
            ApiError::Internal(msg) => msg@,
            ApiError::Engine(msg) => msg@,
            ApiError::Unsupported(msg) => msg@,
        }
    }
}

} // verus!
