use vstd::prelude::*;

use crate::exception::CxxAsyncException;
use crate::exception::CxxAsyncResult;
use crate::status::FUTURE_STATUS_COMPLETE;
use crate::status::FUTURE_STATUS_ERROR;
use crate::status::FUTURE_STATUS_PENDING;

verus! {

/// What a poll of a Rust future hands over to C++ besides its status.
pub enum PollOutput<Out> {
    /// The value the future resolved to.
    Value(Out),
    /// The message of the exception the future failed with.
    Message(String),
    /// Nothing: the future is still pending.
    Nothing,
}

/// Turns the outcome of polling a Rust future into what C++ reads: `None` (still pending) gives
/// `FUTURE_STATUS_PENDING`; a value gives `FUTURE_STATUS_COMPLETE` with that value; an exception
/// gives `FUTURE_STATUS_ERROR` with the exception's message.
pub fn future_poll_status<Out>(ready: Option<CxxAsyncResult<Out>>) -> (r: (u32, PollOutput<Out>))
    ensures
        match ready {
            None => r.0 == FUTURE_STATUS_PENDING && r.1 is Nothing,
            Some(Ok(v)) => r.0 == FUTURE_STATUS_COMPLETE && r.1 == PollOutput::Value(v),
            Some(Err(e)) => r.0 == FUTURE_STATUS_ERROR && r.1 is Message && r.1->Message_0@ == e@,
        },
{
    match ready {
        None => (FUTURE_STATUS_PENDING, PollOutput::Nothing),
        Some(Ok(v)) => (FUTURE_STATUS_COMPLETE, PollOutput::Value(v)),
        Some(Err(e)) => (FUTURE_STATUS_ERROR, PollOutput::Message(e.what().to_owned())),
    }
}

/// Reads the outcome that a C++ coroutine reports with its status: `FUTURE_STATUS_COMPLETE`
/// yields the value that `value` reads, `FUTURE_STATUS_ERROR` the exception that `exception`
/// unpacks. The other reader is not called.
pub fn outcome_from_status<T, F: FnOnce() -> T, G: FnOnce() -> CxxAsyncException>(
    status: u32,
    value: F,
    exception: G,
) -> (r: CxxAsyncResult<T>)
    requires
        status == FUTURE_STATUS_COMPLETE || status == FUTURE_STATUS_ERROR,
        status == FUTURE_STATUS_COMPLETE ==> value.requires(()),
        status == FUTURE_STATUS_ERROR ==> exception.requires(()),
    ensures
        status == FUTURE_STATUS_COMPLETE ==> r is Ok && value.ensures((), r->Ok_0),
        status == FUTURE_STATUS_ERROR ==> r is Err && exception.ensures((), r->Err_0),
{
    if status == FUTURE_STATUS_COMPLETE {
        Ok(value())
    } else {
        Err(exception())
    }
}

/// The sending end that the C++ bridge uses to return a value to a Rust future.
pub trait RustSender {
    /// The type of the value sent.
    type Output;

    /// Sends the outcome of the C++ coroutine.
    fn send(&mut self, value: CxxAsyncResult<Self::Output>);
}

} // verus!
