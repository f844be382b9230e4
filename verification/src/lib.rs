use vstd::prelude::*;

pub mod batch;
pub mod change;
pub mod dns;
pub mod resources;
pub mod response;
pub mod retry;
pub mod tag;

verus! {

/// The closed failure taxonomy of the client. Every failure of a request,
/// wherever it arose, is collapsed into one of these values at the boundary;
/// nothing else ever crosses it.
#[derive(Clone, Debug, PartialEq, Eq)]
pub enum Error {
    /// The server rejected the credentials (HTTP 401).
    Auth,
    /// The server returned a structured application error: its message and
    /// the HTTP status it came with.
    App(String, u16),
    /// A non-success HTTP status with no structured error body.
    Status(u16),
    /// A success status whose body was missing or not interpretable where
    /// one was required.
    Empty,
    /// A transport-level timeout.
    Timeout,
    /// Everything else: connection failures, malformed headers, encoding
    /// failures, described in prose.
    Other(String),
}

/// How the retry engine treats a failure: retrying a `Permanent` failure
/// with identical input cannot succeed, while a `Transient` one may resolve
/// after a wait.
#[derive(Clone, Copy, Debug, PartialEq, Eq, Structural)]
pub enum Class {
    Permanent,
    Transient,
}

/// The classification rule, checked in order, first match wins:
/// `Auth` and `Empty` are permanent; `App` and `Status` are permanent
/// exactly when their status lies in 300..=499; everything else is
/// transient.
pub open spec fn classification(e: Error) -> Class {
    match e {
        Error::Auth => Class::Permanent,
        Error::Empty => Class::Permanent,
        Error::App(_, status) => if 300 <= status && status <= 499 {
            Class::Permanent
        } else {
            Class::Transient
        },
        Error::Status(status) => if 300 <= status && status <= 499 {
            Class::Permanent
        } else {
            Class::Transient
        },
        Error::Timeout => Class::Transient,
        Error::Other(_) => Class::Transient,
    }
}

impl Error {
    /// Decide whether this failure is worth retrying. Total over the type:
    /// every variant is classified, none panics.
    pub fn classify(&self) -> (c: Class)
        ensures
            c == classification(*self),
    {
        match self {
            Error::Auth => Class::Permanent,
            Error::Empty => Class::Permanent,
            Error::App(_, status) => if 300 <= *status && *status <= 499 {
                Class::Permanent
            } else {
                Class::Transient
            },
            Error::Status(status) => if 300 <= *status && *status <= 499 {
                Class::Permanent
            } else {
                Class::Transient
            },
            Error::Timeout => Class::Transient,
            Error::Other(_) => Class::Transient,
        }
    }
}

} // verus!
