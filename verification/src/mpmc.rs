//! An unbounded first-in first-out queue of jobs with an explicit closed
//! state, shared by sender and receiver handles.
//!
//! The queue never sleeps. `recv` reports `Recv::Empty` where a receiver has
//! to wait, and every operation names the receivers to wake, so the embedding
//! program owns the lock and the condition variable and nothing else.

use crossbeam::sync::SegQueue;
use std::collections::HashMap;
use vstd::prelude::*;

verus! {

/// `crossbeam::sync::SegQueue`: nothing is seen inside it; what it holds is
/// told by `queued`.
#[verifier::external_type_specification]
#[verifier::external_body]
#[verifier::reject_recursive_types(T)]
pub struct ExSegQueue<T>(SegQueue<T>);

/// The tickets held by a `crossbeam::sync::SegQueue<u64>`, oldest first.
pub uninterp spec fn queued(q: SegQueue<u64>) -> Seq<u64>;

/// `SegQueue::new`: the new queue holds nothing.
#[verifier::external_body]
fn seg_new() -> (q: SegQueue<u64>)
    ensures
        queued(q) == Seq::<u64>::empty(),
{
    SegQueue::new()
}

/// `SegQueue::push`: the ticket is added at the back, behind all that the
/// queue held.
#[verifier::external_body]
fn seg_push(q: &mut SegQueue<u64>, ticket: u64)
    ensures
        queued(*final(q)) == queued(*old(q)).push(ticket),
{
    q.push(ticket)
}

/// `SegQueue::try_pop`: the ticket at the front leaves the queue and is
/// returned; a queue that holds nothing returns `None` and stays as it was.
#[verifier::external_body]
fn seg_try_pop(q: &mut SegQueue<u64>) -> (front: Option<u64>)
    ensures
        match front {
            Some(ticket) => queued(*old(q)).len() > 0 && ticket == queued(*old(q))[0] && queued(
                *final(q),
            ) == queued(*old(q)).drop_first(),
            None => queued(*old(q)).len() == 0 && queued(*final(q)) == queued(*old(q)),
        },
{
    q.try_pop()
}

/// The receivers that an operation asks to be woken.
#[derive(Clone, Copy, Debug, PartialEq, Eq, Structural)]
pub enum Wake {
    /// Nobody.
    Nobody,
    /// One sleeping receiver.
    One,
    /// Every sleeping receiver.
    All,
}

/// What a receiver finds when it asks the queue for work.
pub enum Recv<J> {
    /// The oldest pending job, now owned by the receiver.
    Job(J),
    /// No job is pending and none will come: every sender is gone.
    Closed,
    /// No job is pending but senders remain: sleep until woken, then ask again.
    Empty,
}

impl<J> Recv<J> {
    /// The receivers to wake after this outcome: one more after a job, so that
    /// it looks for further work; all of them once the queue is closed, so
    /// that each observes it; none where the receiver itself goes to sleep.
    pub open spec fn wakes(self) -> Wake {
        match self {
            Recv::Job(_) => Wake::One,
            Recv::Closed => Wake::All,
            Recv::Empty => Wake::Nobody,
        }
    }

    /// The receivers to wake after this outcome.
    pub fn wake(&self) -> (w: Wake)
        ensures
            w == self.wakes(),
    {
        match self {
            Recv::Job(_) => Wake::One,
            Recv::Closed => Wake::All,
            Recv::Empty => Wake::Nobody,
        }
    }

    /// The job, if one was received.
    pub fn job(self) -> (j: Option<J>)
        ensures
            j == match self {
                Recv::Job(job) => Some(job),
                _ => None::<J>,
            },
    {
        match self {
            Recv::Job(job) => Some(job),
            _ => None,
        }
    }
}

/// The state that all handles of one queue share: the pending jobs in the
/// order in which they were sent, the number of live senders and the closed
/// flag.
#[verifier::reject_recursive_types(J)]
pub struct JobQueue<J> {
    id: u64,
    order: SegQueue<u64>,
    jobs: HashMap<u64, J>,
    issued: u64,
    senders: usize,
    closed: bool,
    sent: Ghost<Seq<J>>,
    taken: Ghost<Seq<J>>,
}

impl<J> JobQueue<J> {
    /// The pending jobs, oldest first.
    pub closed spec fn view(&self) -> Seq<J> {
        Seq::new(queued(self.order).len(), |i: int| self.jobs@[queued(self.order)[i]])
    }

    /// The number that the queue was made with; its handles carry the same.
    pub closed spec fn id(&self) -> u64 {
        self.id
    }

    /// The number of live sender handles.
    pub closed spec fn senders(&self) -> nat {
        self.senders as nat
    }

    /// Whether the queue is closed.
    pub closed spec fn is_closed(&self) -> bool {
        self.closed
    }

    /// The number of jobs that the queue has accepted since it was made.
    pub closed spec fn accepted(&self) -> nat {
        self.issued as nat
    }

    /// Every job that the queue has accepted, in the order of acceptance.
    pub closed spec fn sent(&self) -> Seq<J> {
        self.sent@
    }

    /// Every job that the queue has handed to a receiver, in the order in
    /// which they left.
    pub closed spec fn taken(&self) -> Seq<J> {
        self.taken@
    }

    /// The invariant: the queue is closed exactly when no sender is left, and
    /// every pending ticket stands for one job.
    pub closed spec fn wf(&self) -> bool {
        &&& self.closed == (self.senders == 0)
        &&& self.sent@ == self.taken@ + self@
        &&& self.sent@.len() == self.issued
        &&& queued(self.order).no_duplicates()
        &&& self.jobs@.dom().finite()
        &&& forall|t: u64| #[trigger]
            self.jobs@.contains_key(t) <==> queued(self.order).contains(t)
        &&& forall|i: int|
            0 <= i < queued(self.order).len() ==> #[trigger] queued(self.order)[i] < self.issued
    }

    /// A queue is closed exactly when its last sender is gone.
    pub proof fn lemma_closed_iff_no_sender(&self)
        requires
            self.wf(),
        ensures
            self.is_closed() <==> self.senders() == 0,
    {
    }

    /// Every job that the queue accepted was handed out, in the order of
    /// acceptance, or is still pending: none is lost, none comes out twice
    /// and none overtakes another, however many receivers take from the
    /// queue and whatever becomes of them.
    pub proof fn lemma_each_job_once(&self)
        requires
            self.wf(),
        ensures
            self.sent() == self.taken() + self@,
            self.sent().len() == self.accepted(),
            self@.len() <= self.accepted() <= u64::MAX,
            self@.len() == 0 ==> self.taken() == self.sent(),
    {
        assert(self@.len() == 0 ==> self.taken() + self@ =~= self.taken());
    }

    fn new(id: u64) -> (q: Self)
        ensures
            q.wf(),
            q@ == Seq::<J>::empty(),
            q.id() == id,
            q.senders() == 1,
            !q.is_closed(),
            q.accepted() == 0,
            q.sent() == Seq::<J>::empty(),
            q.taken() == Seq::<J>::empty(),
    {
        broadcast use vstd::std_specs::hash::group_hash_axioms;

        let q = JobQueue {
            id,
            order: seg_new(),
            jobs: HashMap::new(),
            issued: 0,
            senders: 1,
            closed: false,
            sent: Ghost(Seq::empty()),
            taken: Ghost(Seq::empty()),
        };
        assert(q@ =~= Seq::<J>::empty());
        assert(q.sent@ =~= q.taken@ + q@);
        q
    }

    /// A fresh queue of the given number, with one sender, that takes over
    /// the pending jobs and the record of this one. To the handles of the
    /// old number the old queue stays closed for good: none of them reaches
    /// the new one.
    pub(crate) fn renumbered(self, id: u64) -> (made: (Sender, Receiver, Self))
        requires
            self.wf(),
        ensures
            made.2.wf(),
            made.2@ == self@,
            made.2.id() == id,
            made.2.senders() == 1,
            !made.2.is_closed(),
            made.2.accepted() == self.accepted(),
            made.2.sent() == self.sent(),
            made.2.taken() == self.taken(),
            made.0.feeds(&made.2),
            made.1.drains(&made.2),
    {
        let q = JobQueue {
            id,
            order: self.order,
            jobs: self.jobs,
            issued: self.issued,
            senders: 1,
            closed: false,
            sent: self.sent,
            taken: self.taken,
        };
        assert(q@ =~= self@);
        (Sender { queue: id }, Receiver { queue: id }, q)
    }

    /// The number that the queue was made with.
    pub fn number(&self) -> (id: u64)
        ensures
            id == self.id(),
    {
        self.id
    }

    /// Whether the queue is closed.
    pub fn closed(&self) -> (c: bool)
        ensures
            c == self.is_closed(),
    {
        self.closed
    }

    /// Whether another job can be given a ticket.
    pub fn has_room(&self) -> (r: bool)
        ensures
            r == (self.accepted() < u64::MAX),
    {
        self.issued < u64::MAX
    }

    /// Whether another sender handle can be counted.
    pub fn can_share(&self) -> (r: bool)
        ensures
            r == (self.senders() < usize::MAX),
    {
        self.senders < usize::MAX
    }

    fn push(&mut self, job: J)
        requires
            old(self).wf(),
            old(self).accepted() < u64::MAX,
        ensures
            final(self).wf(),
            final(self)@ == old(self)@.push(job),
            final(self).id() == old(self).id(),
            final(self).senders() == old(self).senders(),
            final(self).is_closed() == old(self).is_closed(),
            final(self).accepted() == old(self).accepted() + 1,
            final(self).sent() == old(self).sent().push(job),
            final(self).taken() == old(self).taken(),
    {
        broadcast use vstd::std_specs::hash::group_hash_axioms;

        let ticket = self.issued;
        let ghost before = queued(self.order);
        let ghost table = self.jobs@;
        assert(!before.contains(ticket));
        seg_push(&mut self.order, ticket);
        self.jobs.insert(ticket, job);
        self.issued = ticket + 1;
        proof {
            self.sent@ = self.sent@.push(job);
        }
        proof {
            let after = queued(self.order);
            assert(after == before.push(ticket));
            assert forall|t: u64| #[trigger]
                self.jobs@.contains_key(t) <==> after.contains(t) by {
                if after.contains(t) {
                    let i = choose|i: int| 0 <= i < after.len() && after[i] == t;
                    if i < before.len() {
                        assert(before[i] == t);
                        assert(before.contains(t));
                    }
                }
                if before.contains(t) {
                    let i = choose|i: int| 0 <= i < before.len() && before[i] == t;
                    assert(after[i] == t);
                }
                assert(after[before.len() as int] == ticket);
            }
            assert(after.no_duplicates()) by {
                assert forall|i: int, j: int|
                    0 <= i < after.len() && 0 <= j < after.len() && i != j implies after[i]
                    != after[j] by {
                    if i < before.len() && j < before.len() {
                    } else if i < before.len() {
                        assert(before.contains(before[i]));
                    } else if j < before.len() {
                        assert(before.contains(before[j]));
                    }
                }
            }
            assert(self@ =~= old(self)@.push(job)) by {
                assert forall|i: int| 0 <= i < before.len() implies self.jobs@[after[i]]
                    == table[before[i]] by {
                    assert(before.contains(before[i]));
                }
            }
            assert(self.sent@ =~= self.taken@ + self@);
        }
    }

    fn pop(&mut self) -> (job: Option<J>)
        requires
            old(self).wf(),
        ensures
            final(self).wf(),
            final(self).id() == old(self).id(),
            final(self).senders() == old(self).senders(),
            final(self).is_closed() == old(self).is_closed(),
            final(self).accepted() == old(self).accepted(),
            final(self).sent() == old(self).sent(),
            match job {
                Some(j) => old(self)@.len() > 0 && j == old(self)@[0] && final(self)@ == old(self)@.drop_first()
                    && final(self).taken() == old(self).taken().push(j),
                None => old(self)@.len() == 0 && final(self)@ == old(self)@ && final(self).taken()
                    == old(self).taken(),
            },
    {
        broadcast use vstd::std_specs::hash::group_hash_axioms;

        let ghost before = queued(self.order);
        let ghost table = self.jobs@;
        match seg_try_pop(&mut self.order) {
            None => {
                assert(self@ =~= old(self)@);
                None
            },
            Some(ticket) => {
                assert(before.contains(ticket));
                let job = self.jobs.remove(&ticket);
                proof {
                    let after = queued(self.order);
                    assert(after == before.drop_first());
                    assert forall|i: int| 0 <= i < after.len() implies #[trigger] after[i]
                        != ticket && before.contains(after[i]) by {
                        assert(after[i] == before[i + 1]);
                    }
                    assert forall|t: u64| #[trigger]
                        self.jobs@.contains_key(t) <==> after.contains(t) by {
                        if after.contains(t) {
                            let i = choose|i: int| 0 <= i < after.len() && after[i] == t;
                            assert(after[i] != ticket && before.contains(after[i]));
                        }
                        if before.contains(t) && t != ticket {
                            let i = choose|i: int| 0 <= i < before.len() && before[i] == t;
                            assert(i > 0);
                            assert(after[i - 1] == t);
                        }
                    }
                    assert(after.no_duplicates());
                    assert(self@ =~= old(self)@.drop_first());
                    let j = old(self)@[0];
                    assert(job == Some(j));
                    self.taken@ = self.taken@.push(j);
                    assert(self.sent@ =~= self.taken@ + self@);
                }
                job
            },
        }
    }
}

/// The sending half of a queue. It names the queue that it feeds; the queue
/// counts its live senders and closes when the last one is released.
#[derive(Debug)]
pub struct Sender {
    queue: u64,
}

/// The receiving half of a queue. Receivers are free to copy: the queue does
/// not count them.
#[derive(Clone, Copy, Debug, PartialEq, Eq, Structural)]
pub struct Receiver {
    queue: u64,
}

/// Make a queue with the given number, with one sender and one receiver.
///
/// A handle belongs to a queue by the queue's number and by nothing else:
/// two queues that were made with the same number take each other's
/// handles. Whoever holds more than one queue gives each a number of its
/// own; where there is one queue only, any number will do.
pub fn channel<J>(id: u64) -> (made: (Sender, Receiver, JobQueue<J>))
    ensures
        made.2.wf(),
        made.2@ == Seq::<J>::empty(),
        made.2.id() == id,
        made.2.senders() == 1,
        !made.2.is_closed(),
        made.2.accepted() == 0,
        made.2.sent() == Seq::<J>::empty(),
        made.2.taken() == Seq::<J>::empty(),
        made.0.feeds(&made.2),
        made.1.drains(&made.2),
{
    (Sender { queue: id }, Receiver { queue: id }, JobQueue::new(id))
}

impl Sender {
    /// The number of the queue that this handle was made for.
    pub closed spec fn queue_id(&self) -> u64 {
        self.queue
    }

    /// Whether this handle belongs to `queue`.
    pub open spec fn feeds<J>(&self, queue: &JobQueue<J>) -> bool {
        self.queue_id() == queue.id()
    }

    /// Whether a job sent through this handle reaches `queue`.
    pub open spec fn delivers<J>(&self, queue: &JobQueue<J>) -> bool {
        self.feeds(queue) && !queue.is_closed()
    }

    /// Whether a job sent through this handle would reach `queue`.
    pub fn usable<J>(&self, queue: &JobQueue<J>) -> (u: bool)
        ensures
            u == self.delivers(queue),
    {
        self.queue == queue.id && !queue.closed
    }

    /// Put `job` behind all pending jobs and ask for one receiver to be
    /// woken. The caller is never made to wait. A queue that is closed, or
    /// that this handle does not belong to, takes nothing and the job comes
    /// back.
    pub fn send<J>(&self, queue: &mut JobQueue<J>, job: J) -> (sent: Result<Wake, J>)
        requires
            old(queue).wf(),
            self.delivers(old(queue)) ==> old(queue).accepted() < u64::MAX,
        ensures
            final(queue).wf(),
            final(queue).id() == old(queue).id(),
            final(queue).senders() == old(queue).senders(),
            final(queue).is_closed() == old(queue).is_closed(),
            final(queue).taken() == old(queue).taken(),
            self.delivers(old(queue)) ==> sent == Ok::<Wake, J>(Wake::One) && final(queue)@ == old(
                queue)@.push(job) && final(queue).sent() == old(queue).sent().push(job) && final(
                queue).accepted() == old(queue).accepted() + 1,
            !self.delivers(old(queue)) ==> sent == Err::<Wake, J>(job) && final(queue)@ == old(
                queue)@ && final(queue).sent() == old(queue).sent() && final(queue).accepted()
                == old(queue).accepted(),
    {
        if self.queue != queue.id || queue.closed {
            return Err(job);
        }
        queue.push(job);
        Ok(Wake::One)
    }

    /// Make another sender for the same queue. A queue that is closed, or
    /// that this handle does not belong to, gains none.
    pub fn share<J>(&self, queue: &mut JobQueue<J>) -> (other: Option<Sender>)
        requires
            old(queue).wf(),
            self.delivers(old(queue)) ==> old(queue).senders() < usize::MAX,
        ensures
            final(queue).wf(),
            final(queue)@ == old(queue)@,
            final(queue).id() == old(queue).id(),
            final(queue).is_closed() == old(queue).is_closed(),
            final(queue).accepted() == old(queue).accepted(),
            final(queue).sent() == old(queue).sent(),
            final(queue).taken() == old(queue).taken(),
            self.delivers(old(queue)) ==> (other matches Some(s) && s.feeds(final(queue)) && final(queue).senders() == old(queue).senders() + 1),
            !self.delivers(old(queue)) ==> other is None && final(queue).senders() == old(
                queue).senders(),
    {
        if self.queue != queue.id || queue.closed {
            return None;
        }
        queue.senders = queue.senders + 1;
        assert(queue@ =~= old(queue)@);
        Some(Sender { queue: self.queue })
    }

    /// Give the handle up. When the last sender of a queue goes, the queue
    /// closes and every sleeping receiver is to be woken; the pending jobs
    /// stay for the receivers to take.
    pub fn release<J>(self, queue: &mut JobQueue<J>) -> (wake: Wake)
        requires
            old(queue).wf(),
        ensures
            final(queue).wf(),
            final(queue)@ == old(queue)@,
            final(queue).id() == old(queue).id(),
            final(queue).accepted() == old(queue).accepted(),
            final(queue).sent() == old(queue).sent(),
            final(queue).taken() == old(queue).taken(),
            self.delivers(old(queue)) ==> final(queue).senders() == old(queue).senders() - 1
                && final(queue).is_closed() == (old(queue).senders() == 1) && wake == (if old(
                queue).senders() == 1 {
                Wake::All
            } else {
                Wake::Nobody
            }),
            !self.delivers(old(queue)) ==> wake == Wake::Nobody && final(queue).senders() == old(
                queue).senders() && final(queue).is_closed() == old(queue).is_closed(),
    {
        if self.queue != queue.id || queue.closed {
            return Wake::Nobody;
        }
        queue.senders = queue.senders - 1;
        assert(queue@ =~= old(queue)@);
        if queue.senders == 0 {
            queue.closed = true;
            assert(queue@ =~= old(queue)@);
            Wake::All
        } else {
            Wake::Nobody
        }
    }
}

impl Receiver {
    /// The number of the queue that this handle was made for.
    pub closed spec fn queue_id(&self) -> u64 {
        self.queue
    }

    /// Whether this handle belongs to `queue`.
    pub open spec fn drains<J>(&self, queue: &JobQueue<J>) -> bool {
        self.queue_id() == queue.id()
    }

    /// What `recv` finds in a queue: the oldest pending job if there is one,
    /// pending jobs outliving the close; else whether the queue is closed.
    pub open spec fn found<J>(&self, queue: &JobQueue<J>) -> Recv<J> {
        if !self.drains(queue) {
            Recv::Closed
        } else if queue@.len() > 0 {
            Recv::Job(queue@[0])
        } else if queue.is_closed() {
            Recv::Closed
        } else {
            Recv::Empty
        }
    }

    /// Take the oldest pending job. Where none is pending the answer says
    /// whether to give up (`Closed`) or to sleep and ask again (`Empty`): a
    /// receiver woken for no reason finds `Empty` again and sleeps on. A
    /// queue that this handle does not belong to is closed to it.
    pub fn recv<J>(&self, queue: &mut JobQueue<J>) -> (got: Recv<J>)
        requires
            old(queue).wf(),
        ensures
            final(queue).wf(),
            got == self.found(old(queue)),
            final(queue).id() == old(queue).id(),
            final(queue).senders() == old(queue).senders(),
            final(queue).is_closed() == old(queue).is_closed(),
            final(queue).accepted() == old(queue).accepted(),
            final(queue).sent() == old(queue).sent(),
            got matches Recv::Job(job) ==> final(queue)@ == old(queue)@.drop_first() && final(
                queue).taken() == old(queue).taken().push(job),
            !(got is Job) ==> final(queue)@ == old(queue)@ && final(queue).taken() == old(
                queue).taken(),
    {
        if self.queue != queue.id {
            return Recv::Closed;
        }
        match queue.pop() {
            Some(job) => Recv::Job(job),
            None => {
                if queue.closed {
                    Recv::Closed
                } else {
                    Recv::Empty
                }
            },
        }
    }

    /// A view of the queue for a worker's loop, which borrows this receiver.
    pub fn iter(&self) -> (it: RecvIter)
        ensures
            it.receiver() == *self,
    {
        RecvIter { recv: *self }
    }

    /// A view of the queue for a worker's loop, which owns this receiver.
    pub fn into_iter(self) -> (it: RecvIntoIter)
        ensures
            it.receiver() == self,
    {
        RecvIntoIter { recv: self }
    }

    /// Take every pending job, oldest first: what a worker's loop sees that
    /// asks again and again until the queue has nothing for it.
    pub fn drain<J>(&self, queue: &mut JobQueue<J>) -> (jobs: Vec<J>)
        requires
            old(queue).wf(),
        ensures
            final(queue).wf(),
            final(queue).id() == old(queue).id(),
            final(queue).senders() == old(queue).senders(),
            final(queue).is_closed() == old(queue).is_closed(),
            final(queue).accepted() == old(queue).accepted(),
            final(queue).sent() == old(queue).sent(),
            final(queue).taken() == old(queue).taken() + jobs@,
            self.drains(old(queue)) ==> jobs@ == old(queue)@ && final(queue)@ == Seq::<J>::empty(),
            !self.drains(old(queue)) ==> jobs@ == Seq::<J>::empty() && final(queue)@ == old(
                queue)@,
    {
        let mut jobs: Vec<J> = Vec::new();
        assert(queue.taken() =~= old(queue).taken() + jobs@);
        loop
            invariant
                queue.wf(),
                queue.id() == old(queue).id(),
                queue.senders() == old(queue).senders(),
                queue.is_closed() == old(queue).is_closed(),
                queue.accepted() == old(queue).accepted(),
                queue.sent() == old(queue).sent(),
                queue.taken() == old(queue).taken() + jobs@,
                self.drains(old(queue)) ==> jobs@ + queue@ == old(queue)@,
                !self.drains(old(queue)) ==> jobs@ == Seq::<J>::empty() && queue@ == old(queue)@,
            decreases queue@.len(),
        {
            let ghost rest = queue@;
            let ghost done = jobs@;
            match self.recv(queue) {
                Recv::Job(job) => {
                    jobs.push(job);
                    assert(old(queue).taken() + done.push(job) =~= (old(queue).taken()
                        + done).push(job));
                    assert(jobs@ + queue@ =~= old(queue)@) by {
                        assert(rest =~= seq![rest[0]] + rest.drop_first());
                    }
                },
                _ => {
                    assert(self.drains(old(queue)) ==> jobs@ =~= jobs@ + queue@);
                    return jobs;
                },
            }
        }
    }
}

/// The borrowed view of a queue that a worker's loop walks.
#[derive(Clone, Copy, Debug)]
pub struct RecvIter {
    recv: Receiver,
}

/// The owned view of a queue that a worker's loop walks.
#[derive(Clone, Copy, Debug)]
pub struct RecvIntoIter {
    recv: Receiver,
}

impl RecvIter {
    /// The receiver that the view asks.
    pub closed spec fn receiver(&self) -> Receiver {
        self.recv
    }

    /// The next thing for the loop to do: `Receiver::recv`, unchanged.
    pub fn next<J>(&mut self, queue: &mut JobQueue<J>) -> (got: Recv<J>)
        requires
            old(queue).wf(),
        ensures
            final(queue).wf(),
            final(self).receiver() == old(self).receiver(),
            got == old(self).receiver().found(old(queue)),
            final(queue).id() == old(queue).id(),
            final(queue).senders() == old(queue).senders(),
            final(queue).is_closed() == old(queue).is_closed(),
            final(queue).accepted() == old(queue).accepted(),
            final(queue).sent() == old(queue).sent(),
            got matches Recv::Job(job) ==> final(queue)@ == old(queue)@.drop_first() && final(
                queue).taken() == old(queue).taken().push(job),
            !(got is Job) ==> final(queue)@ == old(queue)@ && final(queue).taken() == old(
                queue).taken(),
    {
        self.recv.recv(queue)
    }
}

impl RecvIntoIter {
    /// The receiver that the view asks.
    pub closed spec fn receiver(&self) -> Receiver {
        self.recv
    }

    /// The next thing for the loop to do: `Receiver::recv`, unchanged.
    pub fn next<J>(&mut self, queue: &mut JobQueue<J>) -> (got: Recv<J>)
        requires
            old(queue).wf(),
        ensures
            final(queue).wf(),
            final(self).receiver() == old(self).receiver(),
            got == old(self).receiver().found(old(queue)),
            final(queue).id() == old(queue).id(),
            final(queue).senders() == old(queue).senders(),
            final(queue).is_closed() == old(queue).is_closed(),
            final(queue).accepted() == old(queue).accepted(),
            final(queue).sent() == old(queue).sent(),
            got matches Recv::Job(job) ==> final(queue)@ == old(queue)@.drop_first() && final(
                queue).taken() == old(queue).taken().push(job),
            !(got is Job) ==> final(queue)@ == old(queue)@ && final(queue).taken() == old(
                queue).taken(),
    {
        self.recv.recv(queue)
    }
}

} // verus!
