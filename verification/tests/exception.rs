use cxx_async::exception::CxxAsyncException;
use cxx_async::future::future_poll_status;
use cxx_async::future::outcome_from_status;
use cxx_async::future::PollOutput;
use cxx_async::status::FUTURE_STATUS_COMPLETE;
use cxx_async::status::FUTURE_STATUS_ERROR;
use cxx_async::status::FUTURE_STATUS_PENDING;

#[test]
fn exception_keeps_message() {
    let e = CxxAsyncException::new("kapow".to_owned().into_boxed_str());
    assert_eq!(e.what(), "kapow");
    assert_eq!(e.to_string(), "kapow");
}

#[test]
fn poll_status_pending() {
    let (code, out) = future_poll_status::<i32>(None);
    assert_eq!(code, FUTURE_STATUS_PENDING);
    assert!(matches!(out, PollOutput::Nothing));
}

#[test]
fn poll_status_complete() {
    let (code, out) = future_poll_status(Some(Ok(17)));
    assert_eq!(code, FUTURE_STATUS_COMPLETE);
    assert!(matches!(out, PollOutput::Value(17)));
}

#[test]
fn poll_status_error_carries_message() {
    let e = CxxAsyncException::new("kapow".to_owned().into_boxed_str());
    let (code, out) = future_poll_status::<i32>(Some(Err(e)));
    assert_eq!(code, FUTURE_STATUS_ERROR);
    match out {
        PollOutput::Message(m) => assert_eq!(m, "kapow"),
        _ => panic!("expected the message"),
    }
}

#[test]
fn outcome_from_complete_reads_value_only() {
    let mut unpacked = false;
    let r = outcome_from_status(FUTURE_STATUS_COMPLETE, || 2.5f64, || {
        unpacked = true;
        CxxAsyncException::new("no".to_owned().into_boxed_str())
    });
    assert!(matches!(r, Ok(v) if v == 2.5));
    assert!(!unpacked);
}

#[test]
fn outcome_from_error_unpacks_exception_only() {
    let mut read = false;
    let r = outcome_from_status(
        FUTURE_STATUS_ERROR,
        || {
            read = true;
            1
        },
        || CxxAsyncException::new("kaboom".to_owned().into_boxed_str()),
    );
    match r {
        Err(e) => assert_eq!(e.what(), "kaboom"),
        Ok(_) => panic!("expected the exception"),
    }
    assert!(!read);
}
