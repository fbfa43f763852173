use cxx_async::channel::RecvPoll;
use cxx_async::channel::SpscChannel;
use cxx_async::exception::CxxAsyncException;
use cxx_async::status::FUTURE_STATUS_COMPLETE;
use cxx_async::status::FUTURE_STATUS_ERROR;
use cxx_async::status::FUTURE_STATUS_RUNNING;
use cxx_async::status::SEND_RESULT_FINISHED;
use cxx_async::status::SEND_RESULT_SENT;
use cxx_async::status::SEND_RESULT_WAIT;
use std::sync::atomic::AtomicUsize;
use std::sync::atomic::Ordering as AtomicOrdering;
use std::sync::Arc;
use std::task::Wake;
use std::task::Waker;

struct Counter(AtomicUsize);

impl Wake for Counter {
    fn wake(self: Arc<Self>) {
        self.0.fetch_add(1, AtomicOrdering::SeqCst);
    }
}

fn counting_waker() -> (Arc<Counter>, Waker) {
    let counter = Arc::new(Counter(AtomicUsize::new(0)));
    let waker = Waker::from(counter.clone());
    (counter, waker)
}

fn count(counter: &Arc<Counter>) -> usize {
    counter.0.load(AtomicOrdering::SeqCst)
}

fn exception(text: &str) -> CxxAsyncException {
    CxxAsyncException::new(text.to_owned().into_boxed_str())
}

#[test]
fn new_channel_is_empty_and_open() {
    let channel: SpscChannel<i32> = SpscChannel::new();
    assert!(channel.waiter.is_none());
    assert!(channel.value.is_none());
    assert!(channel.exception.is_none());
    assert!(!channel.closed);
}

#[test]
fn recv_returns_sent_value() {
    let mut channel = SpscChannel::new();
    let (sent, woken) = channel.try_send_value_with(None, || 42);
    assert!(sent);
    assert!(woken.is_none());
    let (_, waker) = counting_waker();
    let (poll, woken) = channel.recv(waker);
    assert!(matches!(poll, RecvPoll::Ready(Some(Ok(42)))));
    assert!(woken.is_none());
    assert!(channel.value.is_none());
}

#[test]
fn parked_receiver_is_woken_by_send() {
    let mut channel = SpscChannel::new();
    let (counter, waker) = counting_waker();
    let (poll, woken) = channel.recv(waker);
    assert!(matches!(poll, RecvPoll::Pending));
    assert!(woken.is_none());
    assert!(channel.waiter.is_some());
    let (sent, woken) = channel.try_send_value_with(None, || 7);
    assert!(sent);
    woken.expect("the parked receiver must be woken").wake();
    assert_eq!(count(&counter), 1);
    assert!(channel.waiter.is_none());
}

#[test]
fn parked_receiver_is_woken_by_close() {
    let mut channel: SpscChannel<i32> = SpscChannel::new();
    let (counter, waker) = counting_waker();
    let _ = channel.recv(waker);
    let woken = channel.close();
    woken.expect("the parked receiver must be woken").wake();
    assert_eq!(count(&counter), 1);
    assert!(channel.closed);
    let (_, waker) = counting_waker();
    let (poll, woken) = channel.recv(waker);
    assert!(matches!(poll, RecvPoll::Ready(None)));
    assert!(woken.is_none());
}

#[test]
fn parked_receiver_is_woken_by_exception() {
    let mut channel: SpscChannel<i32> = SpscChannel::new();
    let (counter, waker) = counting_waker();
    let _ = channel.recv(waker);
    let woken = channel.send_exception(exception("kaboom"));
    woken.expect("the parked receiver must be woken").wake();
    assert_eq!(count(&counter), 1);
    let (_, waker) = counting_waker();
    match channel.recv(waker).0 {
        RecvPoll::Ready(Some(Err(e))) => assert_eq!(e.what(), "kaboom"),
        _ => panic!("expected the exception"),
    }
}

#[test]
fn full_slot_parks_sender_without_reading_value() {
    let mut channel = SpscChannel::new();
    assert!(channel.try_send_value_with(None, || 1).0);
    let (sender_counter, sender_waker) = counting_waker();
    let mut read = false;
    let (sent, woken) = channel.try_send_value_with(Some(sender_waker), || {
        read = true;
        2
    });
    assert!(!sent);
    assert!(woken.is_none());
    assert!(!read);
    assert_eq!(channel.value, Some(1));
    let (_, waker) = counting_waker();
    let (poll, woken) = channel.recv(waker);
    assert!(matches!(poll, RecvPoll::Ready(Some(Ok(1)))));
    woken.expect("the blocked sender must be woken").wake();
    assert_eq!(count(&sender_counter), 1);
}

#[test]
fn value_then_exception_then_end() {
    let mut channel = SpscChannel::new();
    assert!(channel.try_send_value_with(None, || "fizz".to_owned()).0);
    let _ = channel.send_exception(exception("kablam"));
    let _ = channel.close();
    let (_, w1) = counting_waker();
    let (_, w2) = counting_waker();
    let (_, w3) = counting_waker();
    match channel.recv(w1).0 {
        RecvPoll::Ready(Some(Ok(v))) => assert_eq!(v, "fizz"),
        _ => panic!("expected the value first"),
    }
    match channel.recv(w2).0 {
        RecvPoll::Ready(Some(Err(e))) => assert_eq!(e.what(), "kablam"),
        _ => panic!("expected the exception second"),
    }
    assert!(matches!(channel.recv(w3).0, RecvPoll::Ready(None)));
}

#[test]
fn future_send_complete_delivers_and_closes() {
    let mut channel = SpscChannel::new();
    let (counter, waker) = counting_waker();
    let _ = channel.recv(waker);
    let (code, woken) = channel.future_send(FUTURE_STATUS_COMPLETE, || 3.5f64, || exception("unused"));
    assert_eq!(code, SEND_RESULT_FINISHED);
    woken.expect("the parked receiver must be woken").wake();
    assert_eq!(count(&counter), 1);
    assert!(channel.closed);
    let (_, w) = counting_waker();
    assert!(matches!(channel.recv(w).0, RecvPoll::Ready(Some(Ok(v))) if v == 3.5));
    let (_, w) = counting_waker();
    assert!(matches!(channel.recv(w).0, RecvPoll::Ready(None)));
}

#[test]
fn future_send_error_delivers_exception_and_closes() {
    let mut channel: SpscChannel<f64> = SpscChannel::new();
    let (code, woken) = channel.future_send(FUTURE_STATUS_ERROR, || 0.0, || exception("kapow"));
    assert_eq!(code, SEND_RESULT_FINISHED);
    assert!(woken.is_none());
    assert!(channel.closed);
    assert!(channel.value.is_none());
    let (_, w) = counting_waker();
    match channel.recv(w).0 {
        RecvPoll::Ready(Some(Err(e))) => assert_eq!(e.what(), "kapow"),
        _ => panic!("expected the exception"),
    }
}

#[test]
fn stream_send_codes() {
    let mut channel = SpscChannel::new();
    let (code, _) = channel.stream_send(FUTURE_STATUS_RUNNING, None, || 1, || exception("x"));
    assert_eq!(code, SEND_RESULT_SENT);
    let (sender_counter, sender_waker) = counting_waker();
    let (code, woken) =
        channel.stream_send(FUTURE_STATUS_RUNNING, Some(sender_waker), || 2, || exception("x"));
    assert_eq!(code, SEND_RESULT_WAIT);
    assert!(woken.is_none());
    let (_, w) = counting_waker();
    let (poll, woken) = channel.recv(w);
    assert!(matches!(poll, RecvPoll::Ready(Some(Ok(1)))));
    woken.expect("the blocked sender must be woken").wake();
    assert_eq!(count(&sender_counter), 1);
    let (code, _) = channel.stream_send(FUTURE_STATUS_RUNNING, None, || 2, || exception("x"));
    assert_eq!(code, SEND_RESULT_SENT);
    let (code, _) = channel.stream_send(FUTURE_STATUS_COMPLETE, None, || 99, || exception("x"));
    assert_eq!(code, SEND_RESULT_FINISHED);
    assert!(channel.closed);
    assert_eq!(channel.value, Some(2));
}

#[test]
fn stream_send_error_closes() {
    let mut channel: SpscChannel<i32> = SpscChannel::new();
    let (code, _) = channel.stream_send(FUTURE_STATUS_ERROR, None, || 5, || exception("kablam"));
    assert_eq!(code, SEND_RESULT_FINISHED);
    assert!(channel.closed);
    assert!(channel.value.is_none());
    assert_eq!(channel.exception.as_ref().map(|e| e.what().to_owned()), Some("kablam".to_owned()));
}

#[test]
fn reaping_only_while_open_with_execlet() {
    let mut channel: SpscChannel<i32> = SpscChannel::new();
    assert!(channel.needs_reaping(true));
    assert!(!channel.needs_reaping(false));
    let _ = channel.close();
    assert!(!channel.needs_reaping(true));
}

#[test]
fn receive_as_future_outcome() {
    assert!(matches!(RecvPoll::Ready(Some(Ok(4))).into_future_poll(), Some(Ok(4))));
    assert!(RecvPoll::<i32>::Pending.into_future_poll().is_none());
    match RecvPoll::<i32>::Ready(Some(Err(exception("kaboom")))).into_future_poll() {
        Some(Err(e)) => assert_eq!(e.what(), "kaboom"),
        _ => panic!("expected the exception"),
    }
}

#[test]
fn future_send_complete_on_full_slot_only_closes() {
    let mut channel = SpscChannel::new();
    assert!(channel.try_send_value_with(None, || 1).0);
    let mut read = false;
    let (code, woken) = channel.future_send(
        FUTURE_STATUS_COMPLETE,
        || {
            read = true;
            2
        },
        || exception("unused"),
    );
    assert_eq!(code, SEND_RESULT_FINISHED);
    assert!(woken.is_none());
    assert!(!read);
    assert!(channel.closed);
    assert_eq!(channel.value, Some(1));
}

#[test]
fn second_exception_replaces_first() {
    let mut channel: SpscChannel<i32> = SpscChannel::new();
    let _ = channel.send_exception(exception("first"));
    let _ = channel.send_exception(exception("second"));
    assert_eq!(channel.exception.as_ref().map(|e| e.what().to_owned()), Some("second".to_owned()));
}
