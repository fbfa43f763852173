# cxx-async

Interoperability between Rust `async`/`await` and C++20 coroutines on top of `cxx`.

* `src/` is the verified library (Verus):
  * `channel` — the single-producer/single-consumer channel state through which a bridged
    future or stream passes values, exceptions and wake-ups, with the sending steps that the
    C++ side triggers and the laws that tie them together (what is sent is what is received,
    no wake-up is lost, a closed channel stays closed);
  * `execlet` — the run queue through which C++ hands continuations to a Rust poller, the
    reaper's queue of execlets whose receivers were dropped, and the shared execlet handle;
  * `future` — what a poll of a Rust future hands to C++, and how a reported status becomes an
    outcome;
  * `bridge` — which `impl` blocks the `bridge` attribute accepts (read through syn), the error
    each rejected one gets, and the pieces it derives (qualified C++ name, vtable function and
    link names, output type, trait path);
  * `namespace` — the grammar of the attribute itself: empty, or `namespace = a::b`;
  * `exception`, `status`, `xorshift`.
* `app/` is the program around it: locks, reference counts, raw wakers and raw pointers of the
  FFI, the `Future`/`Stream` implementations, the `bridge` expansion (syn/quote), and the
  cppcoro example.
* `tests/` exercises the library on concrete values.
