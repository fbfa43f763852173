use vstd::prelude::*;

use std::collections::VecDeque;
use std::sync::Arc;
use std::sync::Mutex;
use std::task::Waker;

verus! {

/// The state of an execlet: the run queue through which C++ hands continuations to the Rust
/// poller that drives them to completion (needed by the Folly backend to await semifutures).
///
/// `T` is the type of a queued continuation. The holder of the execlet's lock calls the methods
/// below; the continuations themselves run with the lock dropped.
pub struct ExecletImpl<T> {
    /// Tasks waiting to run, oldest first.
    pub runqueue: VecDeque<T>,
    /// The waker to inform when there are tasks to run.
    pub waker: Option<Waker>,
    /// True while a poller is running the queue; guards against recursive runs.
    pub running: bool,
}

impl<T> ExecletImpl<T> {
    /// Creates an execlet state with no waker and an empty run queue.
    pub fn new() -> (e: Self)
        ensures
            e.runqueue@ == Seq::<T>::empty(),
            e.waker is None,
            !e.running,
    {
        ExecletImpl { runqueue: VecDeque::new(), waker: None, running: false }
    }

    /// Submits a task: it joins the back of the run queue. If no poller is running the queue and
    /// one has registered a waker, a copy of that waker comes back, to be woken once the lock is
    /// dropped.
    pub fn submit(&mut self, task: T) -> (wake: Option<Waker>)
        ensures
            final(self).runqueue@ == old(self).runqueue@.push(task),
            final(self).waker == old(self).waker,
            final(self).running == old(self).running,
            wake is Some <==> (!old(self).running && old(self).waker is Some),
    {
        self.runqueue.push_back(task);
        if !self.running {
            match &self.waker {
                Some(w) => Some(clone_waker(w)),
                None => None,
            }
        } else {
            None
        }
    }

    /// Starts a run of the queue on behalf of the poller whose waker is `waker`. Callers start a
    /// run only when none is under way; should one be, it simply goes on as the new run.
    pub fn begin_run(&mut self, waker: Waker)
        ensures
            final(self).running,
            final(self).waker == Some(waker),
            final(self).runqueue@ == old(self).runqueue@,
    {
        self.running = true;
        self.waker = Some(waker);
    }

    /// Takes the oldest queued task, if any, for the running poller to run.
    pub fn next_task(&mut self) -> (task: Option<T>)
        ensures
            final(self).waker == old(self).waker,
            final(self).running == old(self).running,
            old(self).runqueue@.len() == 0 ==> task is None && final(self).runqueue@
                == old(self).runqueue@,
            old(self).runqueue@.len() > 0 ==> task == Some(old(self).runqueue@[0])
                && final(self).runqueue@ == old(self).runqueue@.drop_first(),
    {
        let task = self.runqueue.pop_front();
        proof {
            if old(self).runqueue@.len() > 0 {
                assert(self.runqueue@ =~= old(self).runqueue@.drop_first());
            }
        }
        task
    }

    /// Ends a run of the queue.
    pub fn end_run(&mut self)
        ensures
            !final(self).running,
            final(self).waker == old(self).waker,
            final(self).runqueue@ == old(self).runqueue@,
    {
        self.running = false;
    }
}

/// Copies a waker, as `<Waker as Clone>::clone` does.
///
/// The copy wakes the same task; nothing about it is stated here, as a waker is opaque.
#[verifier::external_body]
fn clone_waker(w: &Waker) -> Waker {
    w.clone()
}

/// The queue of execlets that the reaper drives to completion after their receivers have been
/// dropped: `new` holds weak handles of execlets added since the last pass, `old` the execlets
/// that earlier passes kept.
pub struct ExecletReaperQueue<E, W> {
    /// Weak handles of newly added execlets.
    pub new: Vec<W>,
    /// Execlets kept from earlier passes.
    pub old: Vec<E>,
}

/// The execlets that survived: the `Some` entries of `s`, in order.
pub open spec fn live_entries<E>(s: Seq<Option<E>>) -> Seq<E>
    decreases s.len(),
{
    if s.len() == 0 {
        Seq::empty()
    } else {
        let rest = live_entries(s.drop_last());
        match s.last() {
            Some(e) => rest.push(e),
            None => rest,
        }
    }
}

impl<E, W> ExecletReaperQueue<E, W> {
    /// Creates an empty queue.
    pub fn new() -> (q: Self)
        ensures
            q.new@ == Seq::<W>::empty(),
            q.old@ == Seq::<E>::empty(),
    {
        ExecletReaperQueue { new: Vec::new(), old: Vec::new() }
    }

    /// Adds the weak handle of an execlet whose receiver was dropped.
    pub fn add(&mut self, execlet: W)
        ensures
            final(self).new@ == old(self).new@.push(execlet),
            final(self).old@ == old(self).old@,
    {
        self.new.push(execlet);
    }

    /// Keeps an execlet that a pass has just run, for the next pass.
    pub fn push_old(&mut self, execlet: E)
        ensures
            final(self).old@ == old(self).old@.push(execlet),
            final(self).new@ == old(self).new@,
    {
        self.old.push(execlet);
    }

    /// True if there is nothing for the reaper to do.
    pub fn is_empty(&self) -> (b: bool)
        ensures
            b == (self.new@.len() == 0 && self.old@.len() == 0),
    {
        self.new.len() == 0 && self.old.len() == 0
    }

    /// Takes every execlet out of the queue for a pass: the kept ones first, in order, then those
    /// of the newly added handles that `upgrade` finds still alive, in the order they were added.
    /// The queue is left empty.
    pub fn take<F: Fn(&W) -> Option<E>>(&mut self, upgrade: F) -> (r: Vec<E>)
        requires
            forall|i: int| 0 <= i < old(self).new@.len() ==> upgrade.requires((&old(self).new@[i],)),
        ensures
            final(self).new@ == Seq::<W>::empty(),
            final(self).old@ == Seq::<E>::empty(),
            exists|outcomes: Seq<Option<E>>|
                {
                    &&& outcomes.len() == old(self).new@.len()
                    &&& forall|i: int|
                        0 <= i < outcomes.len() ==> upgrade.ensures(
                            (&old(self).new@[i],),
                            #[trigger] outcomes[i],
                        )
                    &&& r@ == old(self).old@ + live_entries(outcomes)
                },
    {
        let mut execlets: Vec<E> = Vec::new();
        std::mem::swap(&mut execlets, &mut self.old);
        let mut handles: Vec<W> = Vec::new();
        std::mem::swap(&mut handles, &mut self.new);
        let ghost kept = execlets@;
        let ghost mut outcomes: Seq<Option<E>> = Seq::empty();
        let n = handles.len();
        let mut i: usize = 0;
        while i < n
            invariant
                n == handles@.len(),
                handles@ == old(self).new@,
                kept == old(self).old@,
                0 <= i <= n,
                outcomes.len() == i,
                forall|j: int| 0 <= j < handles@.len() ==> upgrade.requires((&handles@[j],)),
                forall|j: int|
                    0 <= j < outcomes.len() ==> upgrade.ensures(
                        (&handles@[j],),
                        #[trigger] outcomes[j],
                    ),
                execlets@ == kept + live_entries(outcomes),
            decreases n - i,
        {
            let outcome = upgrade(&handles[i]);
            proof {
                let prev = outcomes;
                outcomes = outcomes.push(outcome);
                assert(outcomes.drop_last() =~= prev);
            }
            match outcome {
                Some(e) => {
                    execlets.push(e);
                },
                None => {},
            }
            i = i + 1;
        }
        execlets
    }
}

/// A lock from the standard library. Verus sees nothing inside it: the state it guards is
/// reached only by the code that takes the lock.
#[verifier::external_type_specification]
#[verifier::external_body]
#[verifier::reject_recursive_types(T)]
pub struct ExMutex<T: ?Sized>(std::sync::Mutex<T>);

/// `Mutex::new` wraps a value in a new, unlocked lock. Nothing is stated of the result: the
/// lock is opaque.
pub assume_specification<T>[ std::sync::Mutex::<T>::new ](t: T) -> std::sync::Mutex<T>;

/// The type that C++ sees for an execlet: its state behind a lock. C++ only ever holds a pointer
/// to it.
#[verifier::reject_recursive_types(T)]
pub struct RustExeclet<T>(pub Mutex<ExecletImpl<T>>);

/// A shared handle to an execlet, which lets the Rust polling interface drive C++ tasks to
/// completion.
#[verifier::reject_recursive_types(T)]
pub struct Execlet<T>(pub Arc<RustExeclet<T>>);

impl<T> Clone for Execlet<T> {
    /// Another handle to the same execlet.
    fn clone(&self) -> (c: Self)
        ensures
            c.0 == self.0,
    {
        Execlet(self.0.clone())
    }
}

impl<T> Execlet<T> {
    /// Creates a new execlet with no waker and an empty run queue.
    ///
    /// The new state is what `ExecletImpl::new` returns; it lies behind a lock whose contents
    /// Verus cannot see, so no clause here speaks of it.
    pub fn new() -> (e: Execlet<T>) {
        Execlet(Arc::new(RustExeclet(Mutex::new(ExecletImpl::new()))))
    }
}

/// Tasks run in the order they were submitted: submitting at the back of the run queue does not
/// disturb its front. Taking from `q.push(t)` gives what taking from `q` gives, and once `q` is
/// drained the next task is `t`.
pub proof fn lemma_runqueue_fifo<T>(q: Seq<T>, t: T)
    ensures
        q.len() > 0 ==> q.push(t)[0] == q[0] && q.push(t).drop_first() == q.drop_first().push(t),
        q.len() == 0 ==> q.push(t)[0] == t && q.push(t).drop_first().len() == 0,
{
    if q.len() > 0 {
        assert(q.push(t).drop_first() =~= q.drop_first().push(t));
    }
}

} // verus!
