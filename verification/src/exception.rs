use vstd::prelude::*;

verus! {

/// Any exception that a C++ coroutine throws is caught and converted into this error type.
///
/// It holds the text that `std::exception::what()` returned.
#[derive(Debug)]
pub struct CxxAsyncException {
    what: Box<str>,
}

/// A `Result` whose error is a C++ exception.
pub type CxxAsyncResult<T> = Result<T, CxxAsyncException>;

impl View for CxxAsyncException {
    type V = Seq<char>;

    /// The message of the exception.
    closed spec fn view(&self) -> Seq<char> {
        self.what@
    }
}

impl CxxAsyncException {
    /// Creates a new exception with the given error message.
    pub fn new(what: Box<str>) -> (e: Self)
        ensures
            e@ == what@,
    {
        Self { what }
    }

    /// The value returned by `std::exception::what()`.
    pub fn what(&self) -> (w: &str)
        ensures
            w@ == self@,
    {
        &self.what
    }

    /// The text that displaying the exception shows: its message.
    pub fn to_string(&self) -> (s: String)
        ensures
            s@ == self@,
    {
        self.what().to_owned()
    }
}

} // verus!
