use kentik_api::response::{disposition, failure_error, immediate_error, Disposition};
use kentik_api::Error;

#[test]
fn unauthorized_wins_over_everything() {
    assert_eq!(Disposition::Unauthorized, disposition(401, true));
    assert_eq!(Disposition::Unauthorized, disposition(401, false));
}

#[test]
fn success_with_structured_body_is_parsed() {
    assert_eq!(Disposition::ParseBody, disposition(200, true));
    assert_eq!(Disposition::ParseBody, disposition(201, true));
    assert_eq!(Disposition::ParseBody, disposition(299, true));
}

#[test]
fn success_without_structured_body_is_empty() {
    assert_eq!(Disposition::NoBody, disposition(200, false));
    assert_eq!(Disposition::NoBody, disposition(204, false));
}

#[test]
fn failures_read_the_error_body() {
    assert_eq!(Disposition::ReadErrorBody, disposition(404, false));
    assert_eq!(Disposition::ReadErrorBody, disposition(404, true));
    assert_eq!(Disposition::ReadErrorBody, disposition(503, true));
    assert_eq!(Disposition::ReadErrorBody, disposition(300, false));
}

#[test]
fn structured_error_body_gives_app_error() {
    // A 404 whose body carries an error message maps to the application
    // error with that message and status.
    let e = failure_error(404, Some("invalid device name".to_string()));
    assert_eq!(Error::App("invalid device name".to_string(), 404), e);
}

#[test]
fn unreadable_error_body_gives_status_error() {
    assert_eq!(Error::Status(404), failure_error(404, None));
    assert_eq!(Error::Status(503), failure_error(503, None));
}

#[test]
fn immediate_errors_of_dispositions() {
    assert_eq!(Some(Error::Auth), immediate_error(Disposition::Unauthorized));
    assert_eq!(Some(Error::Empty), immediate_error(Disposition::NoBody));
    assert_eq!(None, immediate_error(Disposition::ParseBody));
    assert_eq!(None, immediate_error(Disposition::ReadErrorBody));
}
