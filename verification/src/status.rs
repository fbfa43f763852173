use vstd::prelude::*;

verus! {

/// The C++ coroutine or Rust future has not finished yet.
pub const FUTURE_STATUS_PENDING: u32 = 0;

/// The coroutine or future finished with a value (for a stream: finished for good).
pub const FUTURE_STATUS_COMPLETE: u32 = 1;

/// The coroutine or future finished by throwing an exception.
pub const FUTURE_STATUS_ERROR: u32 = 2;

/// A stream coroutine yielded a value and goes on running.
pub const FUTURE_STATUS_RUNNING: u32 = 3;

/// The value was not sent because the channel still holds an unread one; the sender must wait.
pub const SEND_RESULT_WAIT: u32 = 0;

/// The value was sent.
pub const SEND_RESULT_SENT: u32 = 1;

/// The channel is closed; nothing more may be sent.
pub const SEND_RESULT_FINISHED: u32 = 2;

} // verus!
