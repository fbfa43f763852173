use vstd::prelude::*;

use crate::exception::CxxAsyncException;
use crate::exception::CxxAsyncResult;
use crate::status::FUTURE_STATUS_COMPLETE;
use crate::status::FUTURE_STATUS_ERROR;
use crate::status::FUTURE_STATUS_RUNNING;
use crate::status::SEND_RESULT_FINISHED;
use crate::status::SEND_RESULT_SENT;
use crate::status::SEND_RESULT_WAIT;
use std::task::Waker;

verus! {

/// A task waker of the Rust executor (or of a suspended C++ coroutine). The channel only stores
/// and hands back wakers; it never looks inside one.
#[verifier::external_type_specification]
#[verifier::external_body]
pub struct ExWaker(std::task::Waker);

/// The state of the single-producer/single-consumer channel that a bridged future or stream uses
/// to pass values between the two languages.
///
/// The holder of the shared lock calls one of the methods below, drops the lock, and then wakes
/// the waker that the method handed back, if any.
pub struct SpscChannel<T> {
    /// The waker waiting on the channel: either the receiving end waiting for a value, or (for
    /// streams) the sending end waiting for the receiving end to take the previous value.
    pub waiter: Option<Waker>,
    /// The value waiting to be read.
    pub value: Option<T>,
    /// An exception from the C++ side that is to be delivered to the Rust side.
    pub exception: Option<CxxAsyncException>,
    /// True once the sending end has finished.
    pub closed: bool,
}

/// What an attempt to receive from the channel yields: the receiving half of `Poll`.
pub enum RecvPoll<T> {
    /// `Ready(Some(..))` carries a value or an exception; `Ready(None)` means that the channel is
    /// closed and drained.
    Ready(Option<CxxAsyncResult<T>>),
    /// Nothing is available yet; the receiver's waker has been registered.
    Pending,
}

impl<T> RecvPoll<T> {
    /// What a receive means to a receiver used as a one-shot future: a value or an exception is
    /// its outcome, `Pending` is no outcome yet. A future is never polled past its outcome, so
    /// the end of the channel does not arise.
    pub fn into_future_poll(self) -> (r: Option<CxxAsyncResult<T>>)
        requires
            !(self matches RecvPoll::Ready(None)),
        ensures
            self matches RecvPoll::Ready(Some(outcome)) ==> r == Some(outcome),
            self is Pending ==> r is None,
    {
        match self {
            RecvPoll::Ready(Some(outcome)) => Some(outcome),
            RecvPoll::Ready(None) => None,
            RecvPoll::Pending => None,
        }
    }
}

impl<T> SpscChannel<T> {
    /// The channel that a new sender/receiver pair starts with.
    pub open spec fn spec_new() -> Self {
        SpscChannel { waiter: None, value: None, exception: None, closed: false }
    }

    /// Closing: the channel becomes closed and whoever waited is to be woken.
    pub open spec fn spec_close(self) -> (Self, Option<Waker>) {
        (SpscChannel { waiter: None, closed: true, ..self }, self.waiter)
    }

    /// Putting `v` into the (empty) value slot; whoever waited is to be woken.
    pub open spec fn spec_send_value(self, v: T) -> (Self, Option<Waker>) {
        (SpscChannel { waiter: None, value: Some(v), ..self }, self.waiter)
    }

    /// A send that found the slot full: a blocking sender parks its waker, a non-blocking one
    /// leaves the channel as it was.
    pub open spec fn spec_park_sender(self, waker: Option<Waker>) -> Self {
        match waker {
            Some(w) => SpscChannel { waiter: Some(w), ..self },
            None => self,
        }
    }

    /// Raising an exception; whoever waited is to be woken.
    pub open spec fn spec_send_exception(self, e: CxxAsyncException) -> (Self, Option<Waker>) {
        (SpscChannel { waiter: None, exception: Some(e), ..self }, self.waiter)
    }

    /// Receiving with the receiver's waker `w`: a pending value comes first, then a pending
    /// exception, then the end of a closed channel; otherwise `w` is parked.
    pub open spec fn spec_recv(self, w: Waker) -> (Self, RecvPoll<T>, Option<Waker>) {
        match self.value {
            Some(v) => (
                SpscChannel { waiter: None, value: None, ..self },
                RecvPoll::Ready(Some(Ok(v))),
                self.waiter,
            ),
            None => match self.exception {
                Some(e) => (
                    SpscChannel { waiter: None, exception: None, ..self },
                    RecvPoll::Ready(Some(Err(e))),
                    self.waiter,
                ),
                None => if self.closed {
                    (self, RecvPoll::Ready(None), None)
                } else {
                    (SpscChannel { waiter: Some(w), ..self }, RecvPoll::Pending, None)
                },
            },
        }
    }

    /// Creates a new, empty, open channel.
    pub fn new() -> (c: Self)
        ensures
            c == Self::spec_new(),
    {
        SpscChannel { waiter: None, value: None, exception: None, closed: false }
    }

    /// Marks the channel as closed. Only the sending end may call this, and only once.
    ///
    /// Returns the waker to wake once the lock is dropped.
    pub fn close(&mut self) -> (woken: Option<Waker>)
        requires
            !old(self).closed,
        ensures
            *final(self) == old(self).spec_close().0,
            woken == old(self).spec_close().1,
    {
        self.closed = true;
        self.waiter.take()
    }

    /// Attempts to send a value. If the channel already holds a value yet to be read, nothing is
    /// sent and `false` comes back; a sender that passed its waker then waits on the channel.
    /// Otherwise `getter` is called to produce the value, which is stored, and `true` comes back.
    ///
    /// The second result is the waker to wake once the lock is dropped.
    pub fn try_send_value_with<F: FnOnce() -> T>(
        &mut self,
        waker: Option<Waker>,
        getter: F,
    ) -> (r: (bool, Option<Waker>))
        requires
            old(self).value is None ==> getter.requires(()),
            old(self).value is Some ==> !(waker is Some && old(self).waiter is Some),
        ensures
            r.0 == (old(self).value is None),
            r.0 ==> {
                &&& final(self).value is Some
                &&& getter.ensures((), final(self).value->0)
                &&& *final(self) == old(self).spec_send_value(final(self).value->0).0
                &&& r.1 == old(self).spec_send_value(final(self).value->0).1
            },
            !r.0 ==> *final(self) == old(self).spec_park_sender(waker) && r.1 is None,
    {
        if self.value.is_none() {
            let v = getter();
            self.value = Some(v);
            (true, self.waiter.take())
        } else {
            if let Some(w) = waker {
                self.waiter = Some(w);
            }
            (false, None)
        }
    }

    /// Raises an exception. This is synchronous and never fails. A sender raises at most one
    /// exception per channel; were it to raise another, that one would replace the first.
    ///
    /// Returns the waker to wake once the lock is dropped.
    pub fn send_exception(&mut self, exception: CxxAsyncException) -> (woken: Option<Waker>)
        ensures
            *final(self) == old(self).spec_send_exception(exception).0,
            woken == old(self).spec_send_exception(exception).1,
    {
        self.exception = Some(exception);
        self.waiter.take()
    }

    /// Attempts to receive. Returns `Pending` (parking `waker`) if nothing is available and the
    /// channel is open, `Ready(None)` if the channel is closed and drained, and otherwise the
    /// pending value or, failing that, the pending exception.
    ///
    /// The second result is the waker to wake once the lock is dropped.
    pub fn recv(&mut self, waker: Waker) -> (r: (RecvPoll<T>, Option<Waker>))
        ensures
            *final(self) == old(self).spec_recv(waker).0,
            r.0 == old(self).spec_recv(waker).1,
            r.1 == old(self).spec_recv(waker).2,
    {
        match self.value.take() {
            Some(v) => (RecvPoll::Ready(Some(Ok(v))), self.waiter.take()),
            None => match self.exception.take() {
                Some(e) => (RecvPoll::Ready(Some(Err(e))), self.waiter.take()),
                None => {
                    if self.closed {
                        (RecvPoll::Ready(None), None)
                    } else {
                        self.waiter = Some(waker);
                        (RecvPoll::Pending, None)
                    }
                },
            },
        }
    }

    /// Whether dropping the receiving end must hand its execlet (if `has_execlet`) to the reaper:
    /// the sending end may still submit tasks to the execlet as long as the channel is open.
    pub fn needs_reaping(&self, has_execlet: bool) -> (r: bool)
        ensures
            r == (has_execlet && !self.closed),
    {
        has_execlet && !self.closed
    }

    /// What the sending end of a one-shot coroutine (future) does with the status it reports:
    /// `FUTURE_STATUS_COMPLETE` sends the value that `value` reads, `FUTURE_STATUS_ERROR` raises
    /// the exception that `exception` unpacks; either way the channel is then closed and
    /// `SEND_RESULT_FINISHED` comes back. Neither reader is called in the other case.
    ///
    /// A one-shot sender never blocks: its value slot is always free. Were it full, the value
    /// would not be read and the channel would only be closed. The second result is the waker to
    /// wake once the lock is dropped.
    pub fn future_send<F: FnOnce() -> T, G: FnOnce() -> CxxAsyncException>(
        &mut self,
        status: u32,
        value: F,
        exception: G,
    ) -> (r: (u32, Option<Waker>))
        requires
            status == FUTURE_STATUS_COMPLETE || status == FUTURE_STATUS_ERROR,
            !old(self).closed,
            status == FUTURE_STATUS_COMPLETE && old(self).value is None ==> value.requires(()),
            status == FUTURE_STATUS_ERROR ==> exception.requires(()),
        ensures
            r.0 == SEND_RESULT_FINISHED,
            r.1 == old(self).waiter,
            final(self).closed,
            status == FUTURE_STATUS_COMPLETE && old(self).value is None ==> {
                &&& final(self).value is Some
                &&& value.ensures((), final(self).value->0)
                &&& *final(self) == old(self).spec_send_value(
                    final(self).value->0,
                ).0.spec_close().0
            },
            status == FUTURE_STATUS_COMPLETE && old(self).value is Some ==> *final(self) == old(
                self,
            ).spec_close().0,
            status == FUTURE_STATUS_ERROR ==> {
                &&& final(self).exception is Some
                &&& exception.ensures((), final(self).exception->0)
                &&& *final(self) == old(self).spec_send_exception(
                    final(self).exception->0,
                ).0.spec_close().0
            },
    {
        let first;
        if status == FUTURE_STATUS_COMPLETE {
            let (_sent, w) = self.try_send_value_with(None, value);
            first = w;
        } else {
            first = self.send_exception(exception());
        }
        let second = self.close();
        if first.is_some() {
            (SEND_RESULT_FINISHED, first)
        } else {
            (SEND_RESULT_FINISHED, second)
        }
    }

    /// What the sending end of a multi-shot coroutine (stream) does with the status it reports:
    ///
    /// * `FUTURE_STATUS_COMPLETE` closes the channel (the value is not read) and yields
    ///   `SEND_RESULT_FINISHED`;
    /// * `FUTURE_STATUS_RUNNING` tries to send the value that `value` reads, yielding
    ///   `SEND_RESULT_SENT`, or, if the slot is still full, parks `waker` (when given) and yields
    ///   `SEND_RESULT_WAIT` without reading the value;
    /// * `FUTURE_STATUS_ERROR` raises the exception that `exception` unpacks, closes the channel
    ///   and yields `SEND_RESULT_FINISHED`.
    ///
    /// The second result is the waker to wake once the lock is dropped.
    pub fn stream_send<F: FnOnce() -> T, G: FnOnce() -> CxxAsyncException>(
        &mut self,
        status: u32,
        waker: Option<Waker>,
        value: F,
        exception: G,
    ) -> (r: (u32, Option<Waker>))
        requires
            status == FUTURE_STATUS_COMPLETE || status == FUTURE_STATUS_RUNNING || status
                == FUTURE_STATUS_ERROR,
            status == FUTURE_STATUS_COMPLETE ==> !old(self).closed,
            status == FUTURE_STATUS_RUNNING ==> {
                &&& old(self).value is None ==> value.requires(())
                &&& old(self).value is Some ==> !(waker is Some && old(self).waiter is Some)
            },
            status == FUTURE_STATUS_ERROR ==> !old(self).closed && exception.requires(()),
        ensures
            status == FUTURE_STATUS_COMPLETE ==> {
                &&& r.0 == SEND_RESULT_FINISHED
                &&& *final(self) == old(self).spec_close().0
                &&& r.1 == old(self).waiter
            },
            status == FUTURE_STATUS_RUNNING && old(self).value is None ==> {
                &&& r.0 == SEND_RESULT_SENT
                &&& final(self).value is Some
                &&& value.ensures((), final(self).value->0)
                &&& *final(self) == old(self).spec_send_value(final(self).value->0).0
                &&& r.1 == old(self).waiter
            },
            status == FUTURE_STATUS_RUNNING && old(self).value is Some ==> {
                &&& r.0 == SEND_RESULT_WAIT
                &&& *final(self) == old(self).spec_park_sender(waker)
                &&& r.1 is None
            },
            status == FUTURE_STATUS_ERROR ==> {
                &&& r.0 == SEND_RESULT_FINISHED
                &&& final(self).exception is Some
                &&& exception.ensures((), final(self).exception->0)
                &&& *final(self) == old(self).spec_send_exception(
                    final(self).exception->0,
                ).0.spec_close().0
                &&& r.1 == old(self).waiter
            },
    {
        if status == FUTURE_STATUS_COMPLETE {
            let woken = self.close();
            (SEND_RESULT_FINISHED, woken)
        } else if status == FUTURE_STATUS_RUNNING {
            let (sent, woken) = self.try_send_value_with(waker, value);
            if sent {
                (SEND_RESULT_SENT, woken)
            } else {
                (SEND_RESULT_WAIT, woken)
            }
        } else {
            let woken = self.send_exception(exception());
            let _none = self.close();
            (SEND_RESULT_FINISHED, woken)
        }
    }
}

/// What is sent is what is received: a value put into an empty slot is what the next receive
/// yields, and the slot is empty again afterwards.
pub proof fn lemma_recv_returns_sent_value<T>(s: SpscChannel<T>, v: T, w: Waker)
    requires
        s.value is None,
    ensures
        s.spec_send_value(v).0.spec_recv(w).1 == RecvPoll::Ready(Some(Ok::<T, CxxAsyncException>(v))),
        s.spec_send_value(v).0.spec_recv(w).0.value is None,
        s.spec_send_value(v).0.spec_recv(w).0.exception == s.exception,
        s.spec_send_value(v).0.spec_recv(w).0.closed == s.closed,
{
}

/// No lost wake-up for the receiver: a receive that finds nothing parks its waker, and the next
/// value, exception or close hands that very waker back to be woken.
pub proof fn lemma_parked_receiver_is_woken<T>(
    s: SpscChannel<T>,
    w: Waker,
    v: T,
    e: CxxAsyncException,
)
    requires
        s.value is None,
        s.exception is None,
        !s.closed,
    ensures
        s.spec_recv(w).1 == RecvPoll::<T>::Pending,
        s.spec_recv(w).0.spec_send_value(v).1 == Some(w),
        s.spec_recv(w).0.spec_send_exception(e).1 == Some(w),
        s.spec_recv(w).0.spec_close().1 == Some(w),
{
}

/// No lost wake-up for a blocked stream sender: a send that finds the slot full parks the
/// sender's waker, and the receive that takes the value hands that waker back to be woken.
pub proof fn lemma_blocked_sender_is_woken<T>(s: SpscChannel<T>, ws: Waker, w: Waker)
    requires
        s.value is Some,
    ensures
        s.spec_park_sender(Some(ws)).spec_recv(w).1 == RecvPoll::Ready(
            Some(Ok::<T, CxxAsyncException>(s.value->0)),
        ),
        s.spec_park_sender(Some(ws)).spec_recv(w).2 == Some(ws),
        s.spec_park_sender(Some(ws)).value == s.value,
{
}

/// A value goes before an exception, and both go before the end of a closed channel: with a
/// value and an exception pending on a closed channel, three receives yield the value, then the
/// exception, then `Ready(None)`.
pub proof fn lemma_value_then_exception_then_end<T>(
    s: SpscChannel<T>,
    w1: Waker,
    w2: Waker,
    w3: Waker,
)
    requires
        s.value is Some,
        s.exception is Some,
        s.closed,
    ensures
        s.spec_recv(w1).1 == RecvPoll::Ready(Some(Ok::<T, CxxAsyncException>(s.value->0))),
        s.spec_recv(w1).0.spec_recv(w2).1 == RecvPoll::Ready(
            Some(Err::<T, CxxAsyncException>(s.exception->0)),
        ),
        s.spec_recv(w1).0.spec_recv(w2).0.spec_recv(w3).1 == RecvPoll::<T>::Ready(None),
{
}

/// A closed channel stays closed, whatever happens to it, and a receive on it never blocks.
pub proof fn lemma_closed_is_final<T>(
    s: SpscChannel<T>,
    v: T,
    e: CxxAsyncException,
    w: Waker,
    ws: Option<Waker>,
)
    requires
        s.closed,
    ensures
        s.spec_send_value(v).0.closed,
        s.spec_send_exception(e).0.closed,
        s.spec_park_sender(ws).closed,
        s.spec_recv(w).0.closed,
        s.spec_recv(w).1 != RecvPoll::<T>::Pending,
{
}

/// Every waker handed back to be woken has left the channel: no waker is woken twice.
pub proof fn lemma_woken_waker_leaves<T>(s: SpscChannel<T>, v: T, e: CxxAsyncException, w: Waker)
    ensures
        s.spec_close().1 is Some ==> s.spec_close().0.waiter is None,
        s.spec_send_value(v).1 is Some ==> s.spec_send_value(v).0.waiter is None,
        s.spec_send_exception(e).1 is Some ==> s.spec_send_exception(e).0.waiter is None,
        s.spec_recv(w).2 is Some ==> s.spec_recv(w).0.waiter is None,
{
}

/// A one-shot future is received once: after the C++ side completes a fresh channel with `v`
/// (send, then close), the receiver gets `v` and then the end of the channel; after it fails
/// with `e`, the receiver gets `e` and then the end.
pub proof fn lemma_future_delivers_once<T>(v: T, e: CxxAsyncException, w1: Waker, w2: Waker)
    ensures
        ({
            let done = SpscChannel::<T>::spec_new().spec_send_value(v).0.spec_close().0;
            &&& done.spec_recv(w1).1 == RecvPoll::Ready(Some(Ok::<T, CxxAsyncException>(v)))
            &&& done.spec_recv(w1).0.spec_recv(w2).1 == RecvPoll::<T>::Ready(None)
        }),
        ({
            let failed = SpscChannel::<T>::spec_new().spec_send_exception(e).0.spec_close().0;
            &&& failed.spec_recv(w1).1 == RecvPoll::Ready(Some(Err::<T, CxxAsyncException>(e)))
            &&& failed.spec_recv(w1).0.spec_recv(w2).1 == RecvPoll::<T>::Ready(None)
        }),
{
}

} // verus!
