//! The closed set of failures and their mapping to HTTP status, message and
//! log severity.

use vstd::prelude::*;
use vstd::string::*;

verus! {

/// A failure of a request. The client-caused kinds carry a fixed message; the
/// internal kinds carry the textual description of the underlying error.
#[derive(Debug, Clone)]
pub enum AppError {
    BadRequest(&'static str),
    NotFound(&'static str),
    Db(String),
    Io(String),
    Env(String),
    Storage(String),
    Other(String),
}

/// The severity at which a failure is logged.
#[derive(Debug, Clone, Copy, PartialEq, Eq, Structural)]
pub enum LogLevel {
    Info,
    Warn,
    Error,
}

impl AppError {
    pub open spec fn status(&self) -> u16 {
        match self {
            AppError::BadRequest(_) => 400,
            AppError::NotFound(_) => 404,
            _ => 500,
        }
    }

    pub open spec fn severity(&self) -> LogLevel {
        match self {
            AppError::BadRequest(_) => LogLevel::Warn,
            AppError::NotFound(_) => LogLevel::Info,
            _ => LogLevel::Error,
        }
    }

    /// The text of the error, which is also the body's `error` field.
    pub open spec fn text(&self) -> Seq<char> {
        match self {
            AppError::BadRequest(m) => "bad request: "@ + m@,
            AppError::NotFound(m) => "not found: "@ + m@,
            AppError::Db(d) => "database error: "@ + d@,
            AppError::Io(d) => "io error: "@ + d@,
            AppError::Env(d) => "env error: "@ + d@,
            AppError::Storage(d) => "storage error: "@ + d@,
            AppError::Other(d) => "other error: "@ + d@,
        }
    }

    /// The HTTP status: 400 for bad input, 404 for a missing resource, 500
    /// for every internal failure.
    pub fn status_code(&self) -> (r: u16)
        ensures
            r == self.status(),
    {
        match self {
            AppError::BadRequest(_) => 400,
            AppError::NotFound(_) => 404,
            _ => 500,
        }
    }

    /// The severity to log the failure at.
    pub fn log_level(&self) -> (r: LogLevel)
        ensures
            r == self.severity(),
    {
        match self {
            AppError::BadRequest(_) => LogLevel::Warn,
            AppError::NotFound(_) => LogLevel::Info,
            _ => LogLevel::Error,
        }
    }

    /// The human-readable message, a kind prefix followed by the detail.
    pub fn message(&self) -> (r: String)
        ensures
            r@ == self.text(),
    {
        let (prefix, detail): (&str, &str) = match self {
            AppError::BadRequest(m) => ("bad request: ", *m),
            AppError::NotFound(m) => ("not found: ", *m),
            AppError::Db(d) => ("database error: ", d.as_str()),
            AppError::Io(d) => ("io error: ", d.as_str()),
            AppError::Env(d) => ("env error: ", d.as_str()),
            AppError::Storage(d) => ("storage error: ", d.as_str()),
            AppError::Other(d) => ("other error: ", d.as_str()),
        };
        let mut r = prefix.to_owned();
        r.append(detail);
        r
    }
}

} // verus!
