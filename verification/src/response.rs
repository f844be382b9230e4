use vstd::prelude::*;
use crate::Error;

verus! {

/// What to do with one attempt's raw response, judged from its status code
/// and from whether it declared the expected structured content type. The
/// transport hands both in as plain values; reading and decoding the body
/// are its own affair.
#[derive(Clone, Copy, Debug, PartialEq, Eq, Structural)]
pub enum Disposition {
    /// A success carrying the expected structured body: decode it.
    ParseBody,
    /// A success with no interpretable body where one was required.
    NoBody,
    /// The credentials were rejected.
    Unauthorized,
    /// Any other failure: the body, if any, may carry a structured error.
    ReadErrorBody,
}

/// The response rule: 401 means the credentials are wrong, whatever else
/// the response carries; any other success (2xx) yields its body when the
/// content type is the structured one expected, and counts as empty when
/// it is not; everything else is a failure whose body is worth reading.
pub open spec fn spec_disposition(status: u16, structured: bool) -> Disposition {
    if status == 401 {
        Disposition::Unauthorized
    } else if 200 <= status && status <= 299 {
        if structured {
            Disposition::ParseBody
        } else {
            Disposition::NoBody
        }
    } else {
        Disposition::ReadErrorBody
    }
}

/// Judge one attempt's response from its status code and from whether it
/// declared the expected structured content type. Total: every status has
/// a disposition.
pub fn disposition(status: u16, structured: bool) -> (d: Disposition)
    ensures
        d == spec_disposition(status, structured),
{
    if status == 401 {
        Disposition::Unauthorized
    } else if 200 <= status && status <= 299 {
        if structured {
            Disposition::ParseBody
        } else {
            Disposition::NoBody
        }
    } else {
        Disposition::ReadErrorBody
    }
}

/// The error a failed response maps to, given its status and the message
/// of its structured error body, if one could be read.
pub open spec fn spec_failure_error(status: u16, message: Option<String>) -> Error {
    match message {
        Some(m) => Error::App(m, status),
        None => Error::Status(status),
    }
}

/// Collapse a failed response to the error taxonomy: a readable structured
/// error body gives `App` with its message and the status; a body with
/// none gives `Status` alone.
pub fn failure_error(status: u16, message: Option<String>) -> (e: Error)
    ensures
        e == spec_failure_error(status, message),
        e is App <==> message is Some,
        e is Status <==> message is None,
{
    match message {
        Some(m) => Error::App(m, status),
        None => Error::Status(status),
    }
}

/// The error of a disposition that needs no body: `Unauthorized` is
/// `Auth`, `NoBody` is `Empty`.
pub fn immediate_error(d: Disposition) -> (e: Option<Error>)
    ensures
        d == Disposition::Unauthorized ==> e == Some(Error::Auth),
        d == Disposition::NoBody ==> e == Some(Error::Empty),
        d == Disposition::ParseBody || d == Disposition::ReadErrorBody ==> e is None,
{
    match d {
        Disposition::Unauthorized => Some(Error::Auth),
        Disposition::NoBody => Some(Error::Empty),
        Disposition::ParseBody => None,
        Disposition::ReadErrorBody => None,
    }
}

} // verus!
