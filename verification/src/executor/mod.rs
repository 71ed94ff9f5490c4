//! Types which take jobs and run them, preferably in the background.
//!
//! An executor here decides; it does not spawn. `Executor::start` names the
//! workers to put on threads, a `Sentinel` tells its worker what to do next
//! and what to do when the worker ends, and the embedding program owns the
//! threads.

pub mod pool;
pub mod single;
pub mod threaded;

use crate::mpmc::{JobQueue, Receiver, Recv};
use vstd::prelude::*;
use vstd::string::StringExecFns;

verus! {

/// The default executor which should be suitable for most use-cases.
pub type DefaultExecutor = threaded::SingleThread;

/// How the run of a job ended.
#[derive(Clone, Copy, Debug, PartialEq, Eq, Structural)]
pub enum Outcome {
    /// The job ran to its end.
    Done,
    /// The job ended abnormally.
    Panicked,
}

/// A job: a single-invocation, argument-less unit of deferred work, which
/// can be invoked from a `Box`.
pub trait ExecBox: Send + 'static {
    /// Whether a run of the job may end with `outcome`. A job that says
    /// nothing of itself may end either way.
    open spec fn ends(&self, outcome: Outcome) -> bool {
        true
    }

    /// Run the job, and say how the run ended.
    fn exec(self: Box<Self>) -> (outcome: Outcome)
        ensures
            self.ends(outcome),
    ;
}

/// The job that does nothing when called.
#[derive(Debug)]
pub struct Noop;

impl ExecBox for Noop {
    /// The run of the job that does nothing ends well.
    open spec fn ends(&self, outcome: Outcome) -> bool {
        outcome == Outcome::Done
    }

    fn exec(self: Box<Self>) -> (outcome: Outcome) {
        Outcome::Done
    }
}

impl dyn ExecBox {
    /// Create a new job which does nothing when called: its run ends well
    /// and in no other way.
    ///
    /// Since it is zero-sized, this call should not allocate.
    pub fn noop() -> (job: Box<Noop>)
        ensures
            forall|outcome: Outcome| #[trigger] job.ends(outcome) <==> outcome == Outcome::Done,
    {
        Box::new(Noop)
    }
}

/// A type which can execute jobs (in the background or otherwise).
///
/// Running a job may end abnormally, so the workers of an executor are
/// described by sentinels, which say how a worker that ended is replaced.
pub trait Executor: Sized {
    /// Whether the executor may name `workers` to take jobs from `recv`.
    spec fn names(self, recv: Receiver, workers: Seq<Sentinel>) -> bool;

    /// Initialize the executor: name the workers that are to take jobs from
    /// `recv`, each to be put on a thread of its own.
    ///
    /// When a worker finds the queue closed, it can quit.
    fn start(self, recv: Receiver) -> (workers: Vec<Sentinel>)
        ensures
            self.names(recv, workers@),
    ;
}

/// What a worker does after it asked for a job.
pub enum Step<J> {
    /// Run this job, then ask again.
    Run(J),
    /// Sleep until woken, then ask again.
    Sleep,
    /// Quit: the queue is closed.
    Quit,
}

/// The description of one worker: the slot that it fills and the receiver
/// that it takes jobs from. It outlives a job that ends abnormally, and
/// names the worker that replaces its own.
#[derive(Clone, Copy, Debug, PartialEq, Eq, Structural)]
pub struct Sentinel {
    thread: usize,
    recv: Receiver,
}

/// Whether `name` is the name of the worker in slot `thread`:
/// `anterofit_worker_` and the slot's number.
pub open spec fn is_worker_name(thread: usize, name: Seq<char>) -> bool {
    exists|digits: String| #[trigger]
        vstd::string::to_string_from_display_ensures::<usize>(&thread, digits) && name
            == "anterofit_worker_"@ + digits@
}

impl Sentinel {
    /// The slot that the worker fills.
    pub closed spec fn slot(&self) -> usize {
        self.thread
    }

    /// The receiver that the worker takes jobs from.
    pub closed spec fn receiver(&self) -> Receiver {
        self.recv
    }

    /// The slot that the worker fills.
    pub fn thread(&self) -> (thread: usize)
        ensures
            thread == self.slot(),
    {
        self.thread
    }

    /// The receiver that the worker takes jobs from.
    pub fn recv(&self) -> (recv: Receiver)
        ensures
            recv == self.receiver(),
    {
        self.recv
    }

    /// The name of the worker's thread, by which it is told from the
    /// threads of the embedding program.
    pub fn name(&self) -> (name: String)
        ensures
            is_worker_name(self.slot(), name@),
    {
        let digits = self.thread.to_string();
        String::from_str("anterofit_worker_").concat(digits.as_str())
    }

    /// What the worker does next: run the oldest pending job, sleep, or
    /// quit.
    pub open spec fn step<J>(&self, queue: &JobQueue<J>) -> Step<J> {
        match self.receiver().found(queue) {
            Recv::Job(job) => Step::Run(job),
            Recv::Empty => Step::Sleep,
            Recv::Closed => Step::Quit,
        }
    }

    /// Ask the queue what to do next. A job that is handed out has left the
    /// queue: whatever becomes of its run, no other worker sees it again.
    pub fn next<J>(&self, queue: &mut JobQueue<J>) -> (step: Step<J>)
        requires
            old(queue).wf(),
        ensures
            final(queue).wf(),
            step == self.step(old(queue)),
            final(queue).id() == old(queue).id(),
            final(queue).senders() == old(queue).senders(),
            final(queue).is_closed() == old(queue).is_closed(),
            final(queue).accepted() == old(queue).accepted(),
            final(queue).sent() == old(queue).sent(),
            step matches Step::Run(job) ==> final(queue)@ == old(queue)@.drop_first() && final(
                queue).taken() == old(queue).taken().push(job),
            !(step is Run) ==> final(queue)@ == old(queue)@ && final(queue).taken() == old(
                queue).taken(),
    {
        match self.recv.recv(queue) {
            Recv::Job(job) => Step::Run(job),
            Recv::Empty => Step::Sleep,
            Recv::Closed => Step::Quit,
        }
    }

    /// The worker that takes this worker's place when it ends: where it
    /// ended abnormally, one that fills the same slot and takes from the
    /// same receiver, so that no pending job goes unseen; none where it
    /// quit.
    pub fn on_exit(self, panicking: bool) -> (replacement: Option<Sentinel>)
        ensures
            replacement == (if panicking {
                Some(self)
            } else {
                None::<Sentinel>
            }),
    {
        if panicking {
            Some(spawn_thread(self.thread, self.recv))
        } else {
            None
        }
    }
}

/// Describe the worker for the given slot, which takes jobs from `recv`.
pub fn spawn_thread(thread: usize, recv: Receiver) -> (sentinel: Sentinel)
    ensures
        sentinel.slot() == thread,
        sentinel.receiver() == recv,
{
    Sentinel { thread, recv }
}

/// Run the jobs that are pending for a worker, oldest first, until the
/// queue has nothing more for it or a job ends abnormally. Every job that
/// is taken from the queue is run, once. Returns how many jobs were taken,
/// and `Outcome::Panicked` where the last of them ended abnormally: the
/// worker is then to be replaced, and the jobs behind the failed one are
/// left pending for its replacement. All jobs before the last ended well.
pub fn work<J: ExecBox + ?Sized>(sentinel: &Sentinel, queue: &mut JobQueue<Box<J>>) -> (ran: (
    u64,
    Outcome,
))
    requires
        old(queue).wf(),
    ensures
        final(queue).wf(),
        final(queue).id() == old(queue).id(),
        final(queue).senders() == old(queue).senders(),
        final(queue).is_closed() == old(queue).is_closed(),
        final(queue).accepted() == old(queue).accepted(),
        final(queue).sent() == old(queue).sent(),
        ran.0 <= old(queue)@.len(),
        final(queue)@ == old(queue)@.skip(ran.0 as int),
        final(queue).taken() == old(queue).taken() + old(queue)@.take(ran.0 as int),
        ran.1 == Outcome::Done ==> sentinel.step(final(queue)) is Sleep || sentinel.step(
            final(queue),
        ) is Quit,
        ran.1 == Outcome::Done && sentinel.receiver().drains(old(queue)) ==> ran.0 == old(
            queue)@.len(),
        ran.1 == Outcome::Panicked ==> ran.0 > 0,
        !sentinel.receiver().drains(old(queue)) ==> ran == (0u64, Outcome::Done),
        forall|i: int| 0 <= i < ran.0 - 1 ==> (#[trigger] old(queue)@[i]).ends(Outcome::Done),
        ran.0 > 0 ==> old(queue)@[ran.0 - 1].ends(ran.1),
{
    let mut ran: u64 = 0;
    proof {
        queue.lemma_each_job_once();
    }
    assert(queue@ =~= old(queue)@.skip(0));
    assert(queue.taken() =~= old(queue).taken() + old(queue)@.take(0));
    loop
        invariant
            queue.wf(),
            queue.id() == old(queue).id(),
            queue.senders() == old(queue).senders(),
            queue.is_closed() == old(queue).is_closed(),
            queue.accepted() == old(queue).accepted(),
            queue.sent() == old(queue).sent(),
            ran <= old(queue)@.len() <= u64::MAX,
            !sentinel.receiver().drains(old(queue)) ==> ran == 0,
            queue@ == old(queue)@.skip(ran as int),
            queue.taken() == old(queue).taken() + old(queue)@.take(ran as int),
            forall|i: int| 0 <= i < ran ==> (#[trigger] old(queue)@[i]).ends(Outcome::Done),
        decreases queue@.len(),
    {
        let ghost before = queue@;
        match sentinel.next(queue) {
            Step::Run(job) => {
                proof {
                    let all = old(queue)@;
                    assert(before.len() == all.len() - ran);
                    assert(ran < all.len());
                    assert(job == before[0]);
                    assert(before[0] == all[ran as int]);
                    assert(queue@ =~= all.skip(ran + 1));
                    assert(all.take(ran + 1) =~= all.take(ran as int).push(all[ran as int]));
                    assert(queue.taken() =~= old(queue).taken() + all.take(ran + 1));
                }
                ran = ran + 1;
                match job.exec() {
                    Outcome::Done => {},
                    Outcome::Panicked => {
                        return (ran, Outcome::Panicked);
                    },
                }
            },
            _ => {
                return (ran, Outcome::Done);
            },
        }
    }
}

/// Whether the jobs may have ended with the outcomes, one for one.
pub open spec fn ended<J: ExecBox + ?Sized>(jobs: Seq<Box<J>>, outcomes: Seq<Outcome>) -> bool {
    jobs.len() == outcomes.len() && forall|i: int|
        0 <= i < jobs.len() ==> (#[trigger] jobs[i]).ends(outcomes[i])
}

/// The number of runs that ended abnormally.
pub open spec fn failures(outcomes: Seq<Outcome>) -> nat
    decreases outcomes.len(),
{
    if outcomes.len() == 0 {
        0
    } else {
        failures(outcomes.drop_last()) + if outcomes.last() == Outcome::Panicked {
            1nat
        } else {
            0nat
        }
    }
}

/// Whether the jobs may have ended with the outcomes, one for one, of
/// which so many are abnormal.
pub open spec fn ended_with<J: ExecBox + ?Sized>(
    jobs: Seq<Box<J>>,
    outcomes: Seq<Outcome>,
    failed: nat,
) -> bool {
    ended(jobs, outcomes) && failures(outcomes) == failed
}

/// Whether the first `ran` of the jobs may have been run, each once, with
/// `failed` of the runs ending abnormally: there are outcomes that the jobs
/// allow, one for each, of which so many are abnormal.
pub open spec fn served_as<J: ExecBox + ?Sized>(jobs: Seq<Box<J>>, ran: int, failed: nat) -> bool {
    exists|outcomes: Seq<Outcome>| ended_with(jobs.take(ran), outcomes, failed)
}

/// The outcomes of one round of a worker: every run but the last ended
/// well, and the last as given.
pub open spec fn round(ran: nat, last: Outcome) -> Seq<Outcome> {
    Seq::new(
        ran,
        |i: int|
            if i == ran - 1 {
                last
            } else {
                Outcome::Done
            },
    )
}

proof fn lemma_failures_of_round(before: Seq<Outcome>, ran: nat, last: Outcome)
    ensures
        failures(before + round(ran, Outcome::Done)) == failures(before),
        ran > 0 ==> failures(before + round(ran, last)) == failures(before) + if last
            == Outcome::Panicked {
            1nat
        } else {
            0nat
        },
    decreases ran,
{
    if ran == 0 {
        assert(before + round(0, Outcome::Done) =~= before);
    } else {
        lemma_failures_of_round(before, (ran - 1) as nat, Outcome::Done);
        let shorter = before + round((ran - 1) as nat, Outcome::Done);
        assert((before + round(ran, Outcome::Done)).drop_last() =~= shorter);
        assert((before + round(ran, last)).drop_last() =~= shorter);
        assert((before + round(ran, last)).last() == last);
        assert((before + round(ran, Outcome::Done)).last() == Outcome::Done);
    }
}

/// Run the pending jobs as a worker and its replacements do: the worker
/// runs jobs, oldest first, until one ends abnormally; the worker that
/// takes its place, in the same slot and at the same receiver, goes on with
/// the job behind the failed one; and so on until the queue has nothing
/// more. Every job that was pending is taken from the queue and run exactly
/// once, in the order in which it was sent, whichever of them fail: a failed
/// job is not taken again, and no job behind it is skipped or left pending.
/// Returns how many jobs were run and how many workers were replaced, which
/// is how many of the runs ended abnormally.
pub fn serve<J: ExecBox + ?Sized>(sentinel: &Sentinel, queue: &mut JobQueue<Box<J>>) -> (served:
    (u64, u64))
    requires
        old(queue).wf(),
    ensures
        final(queue).wf(),
        final(queue).id() == old(queue).id(),
        final(queue).senders() == old(queue).senders(),
        final(queue).is_closed() == old(queue).is_closed(),
        final(queue).accepted() == old(queue).accepted(),
        final(queue).sent() == old(queue).sent(),
        sentinel.receiver().drains(old(queue)) ==> served.0 == old(queue)@.len() && final(
            queue).taken() == old(queue).taken() + old(queue)@ && final(queue)@ == Seq::<
            Box<J>,
        >::empty(),
        !sentinel.receiver().drains(old(queue)) ==> served == (0u64, 0u64) && final(queue)@ == old(
            queue)@ && final(queue).taken() == old(queue).taken(),
        served.0 <= old(queue)@.len(),
        served_as(old(queue)@, served.0 as int, served.1 as nat),
        served.1 <= served.0,
        sentinel.step(final(queue)) is Sleep || sentinel.step(final(queue)) is Quit,
{
    let mut worker = *sentinel;
    let mut taken: u64 = 0;
    let mut replaced: u64 = 0;
    let ghost mut so_far: Seq<Outcome> = Seq::empty();
    proof {
        queue.lemma_each_job_once();
    }
    assert(queue@ =~= old(queue)@.skip(0));
    assert(queue.taken() =~= old(queue).taken() + old(queue)@.take(0));
    loop
        invariant
            queue.wf(),
            queue.id() == old(queue).id(),
            queue.senders() == old(queue).senders(),
            queue.is_closed() == old(queue).is_closed(),
            queue.accepted() == old(queue).accepted(),
            queue.sent() == old(queue).sent(),
            worker == *sentinel,
            replaced <= taken <= old(queue)@.len() <= u64::MAX,
            !sentinel.receiver().drains(old(queue)) ==> taken == 0,
            queue@ == old(queue)@.skip(taken as int),
            queue.taken() == old(queue).taken() + old(queue)@.take(taken as int),
            ended(old(queue)@.take(taken as int), so_far),
            failures(so_far) == replaced,
        decreases queue@.len(),
    {
        let ghost all = old(queue)@;
        let ghost rest = queue@;
        let ghost before = so_far;
        let (ran, outcome) = work(&worker, queue);
        proof {
            assert(rest.len() == all.len() - taken);
            assert(all.skip(taken as int).skip(ran as int) =~= all.skip(taken + ran));
            assert(all.take(taken as int) + all.skip(taken as int).take(ran as int) =~= all.take(
                taken + ran,
            ));
            assert(queue.taken() =~= old(queue).taken() + all.take(taken + ran));
            so_far = before + round(ran as nat, outcome);
            lemma_failures_of_round(before, ran as nat, outcome);
            assert(ended(all.take(taken + ran), so_far)) by {
                assert forall|i: int| 0 <= i < taken + ran implies (#[trigger] all.take(
                    taken + ran,
                )[i]).ends(so_far[i]) by {
                    if i < taken {
                        assert(all.take(taken as int)[i] == all[i]);
                        assert(so_far[i] == before[i]);
                    } else {
                        assert(rest[i - taken] == all[i]);
                        assert(so_far[i] == round(ran as nat, outcome)[i - taken]);
                    }
                }
            }
        }
        taken = taken + ran;
        match outcome {
            Outcome::Done => {
                proof {
                    if sentinel.receiver().drains(old(queue)) {
                        assert(taken == all.len());
                        assert(all.take(all.len() as int) =~= all);
                        assert(queue@ =~= Seq::<Box<J>>::empty());
                    } else {
                        assert(all.skip(0) =~= all);
                        assert(all.take(0) =~= Seq::<Box<J>>::empty());
                        assert(queue.taken() =~= old(queue).taken());
                    }
                    assert(ended_with(old(queue)@.take(taken as int), so_far, replaced as nat));
                    assert(served_as(old(queue)@, taken as int, replaced as nat));
                }
                return (taken, replaced);
            },
            Outcome::Panicked => {
                match worker.on_exit(true) {
                    Some(replacement) => {
                        worker = replacement;
                    },
                    None => {},
                }
                replaced = replaced + 1;
            },
        }
    }
}

} // verus!
