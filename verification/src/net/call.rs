//! The handle that a queued request resolves through, and the guard that a
//! job holds to resolve it.
//!
//! A `Call` yields its result exactly once. The job that computes the result
//! holds the paired `PanicGuard`; a guard that goes away before it was
//! completed, as it does when the job ends abnormally, resolves the call
//! with an error instead, so that no call is left waiting.

use crate::error::{Error, RequestPanicked};
use crate::net::request::RequestHead;
use futures::{Complete, Oneshot};
use futures::Future;
use std::sync::atomic::{AtomicBool, Ordering};
use std::sync::Arc;
use vstd::prelude::*;

verus! {

/// `futures::Oneshot`, the receiving end of a single-value channel: nothing
/// is seen inside it.
#[verifier::external_type_specification]
#[verifier::external_body]
#[verifier::reject_recursive_types(T)]
pub struct ExOneshot<T>(Oneshot<T>);

/// `futures::Complete`, the sending end of a single-value channel: nothing
/// is seen inside it.
#[verifier::external_type_specification]
#[verifier::external_body]
#[verifier::reject_recursive_types(T)]
pub struct ExComplete<T>(Complete<T>);

/// The result type of this crate.
pub type Result<T> = core::result::Result<T, Error>;

/// What the receiving end of a single-value channel holds for its owner.
pub enum Received<T> {
    /// The value that was sent.
    Value(T),
    /// Nothing yet; the sending end is still held.
    Pending,
    /// Nothing, and nothing will come: the sending end went away without
    /// sending.
    Canceled,
}

/// A result that may not be there yet.
#[derive(Debug)]
pub enum Async<T> {
    /// The result.
    Ready(T),
    /// No result yet.
    NotReady,
}

/// What polling a call returns: a result that may not be there yet, or the
/// error that the call resolved to.
pub type Poll<T> = core::result::Result<Async<T>, Error>;

/// `futures::oneshot`: the two ends of a new channel. What
/// the receiving end yields depends on what is done with the sending end,
/// on another thread or on this one, so nothing is stated of either.
#[verifier::external_body]
fn channel_pair<T>() -> (ends: (Complete<T>, Oneshot<T>)) {
    futures::oneshot()
}

/// `Complete::send`: hands the value to the channel and gives the sending end
/// up. The outside function reports a receiver that is gone by handing the
/// value back; that value is dropped here. It does not unwind.
#[verifier::external_body]
fn channel_send<T>(tx: Complete<T>, value: T)
    opens_invariants none
    no_unwind
{
    let _ = tx.send(value);
}

/// `Oneshot::try_recv`: looks into the channel without waiting. Which of
/// the three answers comes depends on the sending end.
#[verifier::external_body]
fn channel_try_recv<T>(rx: &mut Oneshot<T>) -> (got: Received<T>) {
    match rx.try_recv() {
        Ok(Some(value)) => Received::Value(value),
        Ok(None) => Received::Pending,
        Err(_) => Received::Canceled,
    }
}

/// `Future::wait` on an `Oneshot`: sleeps until the sending end has sent or
/// has gone away, so the answer is never `Pending`.
#[verifier::external_body]
fn channel_wait<T>(rx: Oneshot<T>) -> (got: Received<T>)
    ensures
        !(got is Pending),
{
    match rx.wait() {
        Ok(value) => Received::Value(value),
        Err(_) => Received::Canceled,
    }
}

/// `AtomicBool::store` of `true` with release ordering, which does not
/// unwind.
#[verifier::external_body]
fn raise(flag: &AtomicBool)
    opens_invariants none
    no_unwind
{
    flag.store(true, Ordering::Release)
}

/// What a call makes of what its channel holds: the value that was sent
/// when it is an `Ok`, the error that was sent, "not ready" where nothing
/// was sent yet, and `Error::UnknownPanic` where the guard went away without
/// a word.
pub open spec fn mapped<T>(got: Received<Result<T>>) -> Poll<T> {
    match got {
        Received::Value(Ok(val)) => Ok(Async::Ready(val)),
        Received::Value(Err(e)) => Err(e),
        Received::Pending => Ok(Async::NotReady),
        Received::Canceled => Err(Error::UnknownPanic),
    }
}

/// What a call makes of what its channel holds.
pub fn map_poll<T>(got: Received<Result<T>>) -> (poll: Poll<T>)
    ensures
        poll == mapped(got),
{
    match got {
        Received::Value(Ok(val)) => Ok(Async::Ready(val)),
        Received::Value(Err(e)) => Err(e),
        Received::Pending => Ok(Async::NotReady),
        Received::Canceled => Err(Error::UnknownPanic),
    }
}

/// The result that a poll stands for, where it stands for one.
pub open spec fn settled<T>(poll: Poll<T>) -> Option<Result<T>> {
    match poll {
        Ok(Async::Ready(val)) => Some(Ok(val)),
        Ok(Async::NotReady) => None,
        Err(Error::ResultTaken) => None,
        Err(e) => Some(Err(e)),
    }
}

/// The states of a call.
pub enum CallState<T> {
    /// The result is pending: the call holds the receiving end of a channel.
    Waiting,
    /// The result was known when the call was made.
    Immediate(Result<T>),
    /// The result was taken.
    Taken,
}

impl<T> CallState<T> {
    /// One poll of a call in this state, where `got` is what the channel
    /// holds: the state that the call is left in and what the poll returns.
    /// A waiting call stays waiting while nothing was received; every other
    /// poll leaves the call taken.
    pub open spec fn polled(self, got: Received<Result<T>>) -> (CallState<T>, Poll<T>) {
        match self {
            CallState::Waiting => (
                if got is Pending {
                    CallState::Waiting
                } else {
                    CallState::Taken
                },
                mapped(got),
            ),
            CallState::Immediate(Ok(val)) => (CallState::Taken, Ok(Async::Ready(val))),
            CallState::Immediate(Err(e)) => (CallState::Taken, Err(e)),
            CallState::Taken => (CallState::Taken, Err(Error::ResultTaken)),
        }
    }

    /// What blocking on a call in this state returns, where `got` is what
    /// the channel holds once the wait is over.
    pub open spec fn blocked(self, got: Received<Result<T>>) -> Result<T> {
        match self {
            CallState::Waiting => match got {
                Received::Value(res) => res,
                _ => Err(Error::UnknownPanic),
            },
            CallState::Immediate(res) => res,
            CallState::Taken => Err(Error::ResultTaken),
        }
    }
}

#[verifier::reject_recursive_types(T)]
enum Inner<T> {
    Waiting(Oneshot<Result<T>>),
    Immediate(Result<T>),
    Taken,
}

/// A handle representing a pending result to an executed request.
///
/// May be polled for its status or blocked on. Depending on the stage of the
/// request, this may return immediately.
#[must_use]
#[verifier::reject_recursive_types(T)]
pub struct Call<T> {
    state: Inner<T>,
    notify: Arc<AtomicBool>,
}

impl<T> Call<T> {
    /// The state of the call.
    pub closed spec fn view(&self) -> CallState<T> {
        match self.state {
            Inner::Waiting(_) => CallState::Waiting,
            Inner::Immediate(res) => CallState::Immediate(res),
            Inner::Taken => CallState::Taken,
        }
    }

    /// Ignore the result of this call.
    ///
    /// Equivalent to `let _ = self` but more friendly for method-chaining.
    pub fn ignore(self) {
    }

    /// Ignore the result of this call, returning `Ok(())`.
    pub fn ignore_ok(self) -> (ok: Result<()>)
        ensures
            ok == Ok::<(), Error>(()),
    {
        Ok(())
    }

    /// Block on this call until a result is available, and take it.
    ///
    /// A call whose result was known returns it at once; a call whose result
    /// was taken returns `Error::ResultTaken` at once. A waiting call sleeps
    /// until its guard was completed or went away, and returns what the
    /// guard said, or `Error::UnknownPanic` where it said nothing.
    pub fn block(self) -> (res: Result<T>)
        ensures
            exists|got: Received<Result<T>>| !(got is Pending) && res == self@.blocked(got),
    {
        match self.state {
            Inner::Waiting(rx) => {
                let got = channel_wait(rx);
                assert(!(got is Pending));
                let res = match got {
                    Received::Value(res) => res,
                    _ => Err(Error::UnknownPanic),
                };
                assert(res == self@.blocked(got));
                res
            },
            Inner::Immediate(res) => {
                assert(res == self@.blocked(Received::Canceled));
                res
            },
            Inner::Taken => {
                assert(Err::<T, Error>(Error::ResultTaken) == self@.blocked(Received::Canceled));
                Err(Error::ResultTaken)
            },
        }
    }

    /// Poll this call for a result.
    ///
    /// Returns `None` in two cases:
    ///
    /// * The result is not ready yet
    /// * The result has already been taken
    pub fn check(&mut self) -> (res: Option<Result<T>>)
        ensures
            exists|got: Received<Result<T>>|
                final(self)@ == old(self)@.polled(got).0 && res == settled(
                    old(self)@.polled(got).1,
                ),
    {
        match self.poll_no_task() {
            Ok(Async::Ready(val)) => Some(Ok(val)),
            Ok(Async::NotReady) => None,
            Err(Error::ResultTaken) => None,
            Err(e) => Some(Err(e)),
        }
    }

    /// Return `true` if a result is available (a call to `check()` will
    /// return the result). A call whose result was known is available; a
    /// call whose result was taken is not; a waiting call is available once
    /// its guard has spoken or gone.
    pub fn is_available(&self) -> (available: bool)
        ensures
            self@ is Immediate ==> available,
            self@ is Taken ==> !available,
    {
        match &self.state {
            Inner::Immediate(_) => true,
            Inner::Taken => false,
            Inner::Waiting(_) => self.notify.load(Ordering::Acquire),
        }
    }

    /// Returns `true` if the result was known when the call was made, so
    /// that taking it will not wait.
    pub fn is_immediate(&self) -> (immediate: bool)
        ensures
            immediate == (self@ is Immediate),
    {
        match &self.state {
            Inner::Immediate(_) => true,
            _ => false,
        }
    }

    /// Returns `true` if the result has already been taken.
    pub fn result_taken(&self) -> (taken: bool)
        ensures
            taken == (self@ is Taken),
    {
        match &self.state {
            Inner::Taken => true,
            _ => false,
        }
    }

    /// Poll the call without waiting.
    ///
    /// While the call waits and nothing was received: "not ready", and the
    /// call waits on. Once the result is there: the result, and the call is
    /// taken. Of a taken call: `Error::ResultTaken`, again and again.
    pub fn poll_no_task(&mut self) -> (poll: Poll<T>)
        ensures
            exists|got: Received<Result<T>>| (final(self)@, poll) == old(self)@.polled(got),
    {
        let mut state = Inner::Taken;
        core::mem::swap(&mut self.state, &mut state);
        match state {
            Inner::Waiting(mut rx) => {
                let got = channel_try_recv(&mut rx);
                if let Received::Pending = got {
                    self.state = Inner::Waiting(rx);
                }
                let poll = map_poll(got);
                assert((self@, poll) == old(self)@.polled(got));
                poll
            },
            Inner::Immediate(res) => {
                let poll = match res {
                    Ok(val) => Ok(Async::Ready(val)),
                    Err(e) => Err(e),
                };
                assert((self@, poll) == old(self)@.polled(Received::Pending));
                poll
            },
            Inner::Taken => {
                assert((self@, Err::<Async<T>, Error>(Error::ResultTaken)) == old(self)@.polled(
                    Received::Pending,
                ));
                Err(Error::ResultTaken)
            },
        }
    }
}

/// A second look at a call that gave its result away finds it taken: once
/// a poll has returned anything but "not ready", the call is taken, and
/// every later poll returns `Error::ResultTaken` and every later block
/// returns it too, whatever the channel holds.
pub proof fn lemma_result_is_taken_once<T>(
    call: CallState<T>,
    first: Received<Result<T>>,
    later: Received<Result<T>>,
)
    requires
        call.polled(first).1 != Ok::<Async<T>, Error>(Async::NotReady),
    ensures
        call.polled(first).0 is Taken,
        call.polled(first).0.polled(later) == (
            CallState::<T>::Taken,
            Err::<Async<T>, Error>(Error::ResultTaken),
        ),
        call.polled(first).0.blocked(later) == Err::<T, Error>(Error::ResultTaken),
{
}

/// A poll hands out a result at most once: where one poll settled a result,
/// no later poll settles another.
pub proof fn lemma_no_second_result<T>(
    call: CallState<T>,
    first: Received<Result<T>>,
    later: Received<Result<T>>,
)
    requires
        settled(call.polled(first).1) is Some,
    ensures
        settled(call.polled(first).0.polled(later).1) is None,
{
}

/// Make a waiting call and the guard that resolves it. The guard keeps the
/// head of the request, if one is given, to say which request failed.
pub fn oneshot<T>(head: Option<RequestHead>) -> (pair: (PanicGuard<T>, Call<T>))
    ensures
        pair.0.is_armed(),
        pair.0.head() == head,
        pair.0.said() is None,
        pair.1@ is Waiting,
{
    let (tx, rx) = channel_pair();
    let notify = Arc::new(AtomicBool::new(false));
    let guard = PanicGuard { head, tx: Some(tx), notify: notify.clone(), said: Ghost(None) };
    (guard, Call { state: Inner::Waiting(rx), notify })
}

/// Make a call whose result is known.
pub fn immediate<T>(res: Result<T>) -> (call: Call<T>)
    ensures
        call@ == CallState::Immediate(res),
{
    Call { state: Inner::Immediate(res), notify: Arc::new(AtomicBool::new(false)) }
}

/// Resolves the paired call when it goes away before it was completed.
#[verifier::reject_recursive_types(T)]
pub struct PanicGuard<T> {
    head: Option<RequestHead>,
    tx: Option<Complete<Result<T>>>,
    notify: Arc<AtomicBool>,
    said: Ghost<Option<Result<T>>>,
}

/// What a guard that goes away armed sends to its call: the error that
/// names the request, where the guard holds its head; nothing where it holds
/// none, and the call then finds its channel canceled.
pub open spec fn last_word<T>(head: Option<RequestHead>) -> Option<Result<T>> {
    match head {
        Some(head) => Some(Err(Error::Panic(RequestPanicked(head)))),
        None => None,
    }
}

/// What the call of a guard that went away armed finds in its channel.
pub open spec fn left_behind<T>(head: Option<RequestHead>) -> Received<Result<T>> {
    match last_word::<T>(head) {
        Some(res) => Received::Value(res),
        None => Received::Canceled,
    }
}

/// A job that ends abnormally before it completed its guard still resolves
/// its call, and with an error that says so: the next poll of the waiting
/// call takes `Error::Panic` with the request's head, or
/// `Error::UnknownPanic` where the guard held none, and a block returns the
/// same. Neither finds the call pending.
pub proof fn lemma_abandoned_call_resolves<T>(head: Option<RequestHead>)
    ensures
        !(left_behind::<T>(head) is Pending),
        CallState::<T>::Waiting.polled(left_behind::<T>(head)).0 is Taken,
        CallState::<T>::Waiting.polled(left_behind::<T>(head)).1 matches Err(e) && e.is_abnormal(),
        CallState::<T>::Waiting.blocked(left_behind::<T>(head)) matches Err(e) && e.is_abnormal(),
        head matches Some(h) ==> CallState::<T>::Waiting.blocked(left_behind::<T>(head)) == Err::<
            T,
            Error,
        >(Error::Panic(RequestPanicked(h))),
{
}

impl<T> PanicGuard<T> {
    /// Whether the guard still has to resolve its call.
    pub closed spec fn is_armed(&self) -> bool {
        self.tx is Some
    }

    /// The head of the request that the guard stands for, if it holds one.
    pub closed spec fn head(&self) -> Option<RequestHead> {
        self.head
    }

    /// The result that the guard has handed to its channel, if it has
    /// handed one.
    pub closed spec fn said(&self) -> Option<Result<T>> {
        self.said@
    }

    /// Whether the guard still has to resolve its call.
    pub fn armed(&self) -> (armed: bool)
        ensures
            armed == self.is_armed(),
    {
        self.tx.is_some()
    }

    /// Whether the guard holds the head of a request.
    pub fn has_head(&self) -> (has: bool)
        ensures
            has == self.head() is Some,
    {
        self.head.is_some()
    }

    /// Get a mutable reference to the request head, where the guard holds
    /// one.
    pub fn head_mut(&mut self) -> (head: &mut RequestHead)
        requires
            old(self).head() is Some,
        ensures
            *head == old(self).head().unwrap(),
            final(self).head() == Some(*final(head)),
            final(self).is_armed() == old(self).is_armed(),
            final(self).said() == old(self).said(),
    {
        self.head.as_mut().unwrap()
    }

    /// Send a result, which disarms the guard: an armed guard hands `res`
    /// to its channel and nothing after it. A guard that was disarmed sends
    /// nothing: its call has its result.
    pub fn complete(&mut self, res: Result<T>)
        ensures
            !final(self).is_armed(),
            final(self).head() == old(self).head(),
            final(self).said() == (if old(self).is_armed() {
                Some(res)
            } else {
                old(self).said()
            }),
        opens_invariants none
        no_unwind
    {
        let mut tx = None;
        core::mem::swap(&mut self.tx, &mut tx);
        match tx {
            Some(tx) => {
                proof {
                    self.said@ = Some(res);
                }
                channel_send(tx, res);
                raise(&self.notify);
            },
            None => {},
        }
    }
}

impl<T> PanicGuard<T> {
    /// Say the last word, as a guard does when it goes away: a guard that
    /// is armed and holds the head of its request hands the error that
    /// names the request to its channel; any other guard hands nothing, and
    /// where it is armed its call finds the channel canceled once the guard
    /// is gone.
    pub fn abandon(&mut self)
        ensures
            final(self).said() == (if old(self).is_armed() && old(self).head() is Some {
                last_word::<T>(old(self).head())
            } else {
                old(self).said()
            }),
            final(self).is_armed() == (old(self).is_armed() && old(self).head() is None),
            final(self).head() is None,
        opens_invariants none
        no_unwind
    {
        let mut head = None;
        core::mem::swap(&mut self.head, &mut head);
        match head {
            Some(head) => {
                self.complete(Err(Error::Panic(RequestPanicked(head))));
            },
            None => {},
        }
        raise(&self.notify);
    }
}

impl<T> Drop for PanicGuard<T> {
    fn drop(&mut self)
        opens_invariants none
        no_unwind
    {
        self.abandon();
    }
}

} // verus!
