use cxx_async::execlet::Execlet;
use cxx_async::execlet::ExecletImpl;
use cxx_async::execlet::ExecletReaperQueue;
use std::sync::atomic::AtomicUsize;
use std::sync::atomic::Ordering as AtomicOrdering;
use std::sync::Arc;
use std::task::Wake;
use std::task::Waker;

struct Counter(AtomicUsize);

impl Wake for Counter {
    fn wake(self: Arc<Self>) {
        self.0.fetch_add(1, AtomicOrdering::SeqCst);
    }
}

#[test]
fn new_execlet_is_idle() {
    let e: ExecletImpl<u32> = ExecletImpl::new();
    assert!(e.runqueue.is_empty());
    assert!(e.waker.is_none());
    assert!(!e.running);
    let handle: Execlet<u32> = Execlet::new();
    let copy = handle.clone();
    assert!(Arc::ptr_eq(&handle.0, &copy.0));
}

#[test]
fn submit_without_waker_does_not_wake() {
    let mut e = ExecletImpl::new();
    assert!(e.submit(1u32).is_none());
    assert_eq!(e.runqueue.len(), 1);
}

#[test]
fn submit_wakes_registered_idle_poller() {
    let mut e = ExecletImpl::new();
    let counter = Arc::new(Counter(AtomicUsize::new(0)));
    e.begin_run(Waker::from(counter.clone()));
    assert!(e.next_task().is_none());
    e.end_run();
    let wake = e.submit(5u32);
    wake.expect("an idle poller with a waker must be woken").wake();
    assert_eq!(counter.0.load(AtomicOrdering::SeqCst), 1);
}

#[test]
fn submit_while_running_does_not_wake() {
    let mut e = ExecletImpl::new();
    let counter = Arc::new(Counter(AtomicUsize::new(0)));
    e.begin_run(Waker::from(counter.clone()));
    assert!(e.submit(5u32).is_none());
    assert_eq!(e.next_task(), Some(5));
    e.end_run();
    assert!(!e.running);
}

#[test]
fn tasks_run_in_submission_order() {
    let mut e = ExecletImpl::new();
    for t in [3u32, 1, 4, 1, 5] {
        let _ = e.submit(t);
    }
    e.begin_run(Waker::noop().clone());
    let mut order = vec![];
    while let Some(t) = e.next_task() {
        order.push(t);
    }
    e.end_run();
    assert_eq!(order, vec![3, 1, 4, 1, 5]);
}

#[test]
fn reaper_queue_take_keeps_old_then_live_new() {
    let mut q: ExecletReaperQueue<u32, u32> = ExecletReaperQueue::new();
    assert!(q.is_empty());
    q.push_old(10);
    q.push_old(20);
    q.add(1);
    q.add(2);
    q.add(3);
    assert!(!q.is_empty());
    // Odd handles are still alive; even ones have died.
    let taken = q.take(|h: &u32| if *h % 2 == 1 { Some(*h * 100) } else { None });
    assert_eq!(taken, vec![10, 20, 100, 300]);
    assert!(q.is_empty());
}
