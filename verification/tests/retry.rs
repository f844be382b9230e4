use kentik_api::retry::{Retry, RetryPolicy, RetryState};
use kentik_api::{Class, Error};

#[derive(Eq, PartialEq, Debug)]
enum Decision {
    Wait,
    Stop,
}

impl From<RetryPolicy> for Decision {
    fn from(p: RetryPolicy) -> Self {
        match p {
            RetryPolicy::WaitRetry(_) => Decision::Wait,
            RetryPolicy::ForwardError(_) => Decision::Stop,
        }
    }
}

fn retry(retries: u64) -> Retry {
    Retry::new(retries)
}

#[test]
fn zero_retries() {
    let mut retry = retry(0);
    assert_eq!(Decision::Stop, retry.handle(1, Error::Status(503)).into());
}

#[test]
fn one_retry() {
    let mut retry = retry(1);
    assert_eq!(Decision::Wait, retry.handle(1, Error::Status(503)).into());
    assert_eq!(Decision::Stop, retry.handle(2, Error::Status(503)).into());
}

#[test]
fn two_retries() {
    let mut retry = retry(2);
    assert_eq!(Decision::Wait, retry.handle(1, Error::Status(503)).into());
    assert_eq!(Decision::Wait, retry.handle(2, Error::Status(503)).into());
    assert_eq!(Decision::Stop, retry.handle(3, Error::Status(503)).into());
}

#[test]
fn ensure_retry() {
    assert_eq!(Decision::Wait, retry(1).handle(0, Error::App(String::new(), 500)).into());
    assert_eq!(Decision::Wait, retry(1).handle(0, Error::Status(500)).into());
    assert_eq!(Decision::Wait, retry(1).handle(0, Error::Timeout).into());
    assert_eq!(Decision::Wait, retry(1).handle(0, Error::Other(String::new())).into());
}

#[test]
fn ensure_no_retry() {
    assert_eq!(Decision::Stop, retry(1).handle(0, Error::Auth).into());
    assert_eq!(Decision::Stop, retry(1).handle(0, Error::App(String::new(), 400)).into());
    assert_eq!(Decision::Stop, retry(1).handle(0, Error::Status(400)).into());
    assert_eq!(Decision::Stop, retry(1).handle(0, Error::Empty).into());
}

#[test]
fn classify_permanent_variants() {
    assert_eq!(Class::Permanent, Error::Auth.classify());
    assert_eq!(Class::Permanent, Error::Empty.classify());
    assert_eq!(Class::Permanent, Error::Status(300).classify());
    assert_eq!(Class::Permanent, Error::Status(404).classify());
    assert_eq!(Class::Permanent, Error::Status(499).classify());
    assert_eq!(Class::Permanent, Error::App("bad".to_string(), 404).classify());
}

#[test]
fn classify_transient_variants() {
    assert_eq!(Class::Transient, Error::Timeout.classify());
    assert_eq!(Class::Transient, Error::Other("reset".to_string()).classify());
    assert_eq!(Class::Transient, Error::Status(500).classify());
    assert_eq!(Class::Transient, Error::Status(503).classify());
    assert_eq!(Class::Transient, Error::Status(299).classify());
    assert_eq!(Class::Transient, Error::App("oops".to_string(), 500).classify());
    assert_eq!(Class::Transient, Error::App("odd".to_string(), 500).classify());
}

#[test]
fn engine_three_attempts_on_persistent_503() {
    // An operation that keeps answering 503 against a budget of three
    // attempts: two waits, then the third failure surfaces the error.
    let mut state = RetryState::start(3);
    assert_eq!(Decision::Wait, state.fail(Error::Status(503)).into());
    assert_eq!(Decision::Wait, state.fail(Error::Status(503)).into());
    match state.fail(Error::Status(503)) {
        RetryPolicy::ForwardError(e) => assert_eq!(Error::Status(503), e),
        RetryPolicy::WaitRetry(_) => panic!("engine retried past its budget"),
    }
}

#[test]
fn engine_zero_budget_stops_at_once() {
    let mut state = RetryState::start(0);
    assert_eq!(Decision::Stop, state.fail(Error::Timeout).into());
    let mut state = RetryState::start(0);
    assert_eq!(Decision::Stop, state.fail(Error::Auth).into());
}

#[test]
fn engine_permanent_stops_with_budget_left() {
    let mut state = RetryState::start(5);
    match state.fail(Error::App("invalid device name".to_string(), 404)) {
        RetryPolicy::ForwardError(e) => {
            assert_eq!(Error::App("invalid device name".to_string(), 404), e)
        }
        RetryPolicy::WaitRetry(_) => panic!("engine retried a permanent failure"),
    }
}
