//! The verified core of `cxx-async`: the state machines that move values, exceptions and
//! wake-ups between the Rust and C++ halves of a bridged future or stream.
pub mod bridge;
pub mod channel;
pub mod exception;
pub mod execlet;
pub mod future;
pub mod namespace;
pub mod status;
pub mod xorshift;
