//! An executor with one worker, which is replaced when it fails.
//!
//! The executor owns the queue and publishes the sender that feeds it. A
//! worker that ends abnormally is replaced at once by one that takes from
//! the same receiver. Where the published sender no longer delivers, or no
//! worker is left, the next submission puts the pending jobs under a new
//! queue number with a new sender and a new worker, once, and goes on.

use crate::error::Error;
use crate::executor::{spawn_thread, Sentinel, Step};
use crate::mpmc::{channel, JobQueue, Sender, Wake};
use vstd::prelude::*;

verus! {

/// The state of the executor, as contracts see it.
pub struct Engine<J> {
    /// Every job that was accepted, in the order of acceptance.
    pub sent: Seq<J>,
    /// Every job that was handed to a worker, in the order of leaving.
    pub taken: Seq<J>,
    /// The jobs that wait for the worker, oldest first.
    pub pending: Seq<J>,
    /// The number of the queue that the published sender feeds.
    pub generation: u64,
    /// Whether a worker is there to take jobs.
    pub worker: bool,
    /// Whether the published sender delivers.
    pub open: bool,
}

/// What can happen to the executor.
pub enum Event<J> {
    /// A job is submitted.
    Execute(J),
    /// The worker asks for a job.
    Serve,
    /// The worker ends, abnormally or not.
    Exit(bool),
    /// The published sender is given up.
    Shut,
}

impl<J> Engine<J> {
    /// The executor as it is made: nothing was sent, a worker is there.
    pub open spec fn start() -> Engine<J> {
        Engine {
            sent: Seq::empty(),
            taken: Seq::empty(),
            pending: Seq::empty(),
            generation: 0,
            worker: true,
            open: true,
        }
    }

    /// No job is lost and none runs twice: what was accepted is what was
    /// handed out followed by what is pending.
    pub open spec fn inv(self) -> bool {
        self.sent == self.taken + self.pending
    }

    /// Whether a submission goes through as things are.
    pub open spec fn usable(self) -> bool {
        self.worker && self.open
    }

    /// The executor after it was made usable again: a new queue number, a
    /// new sender, a new worker, the same jobs.
    pub open spec fn respawned(self) -> Engine<J> {
        Engine {
            generation: (self.generation + 1) as u64,
            worker: true,
            open: true,
            ..self
        }
    }

    /// The executor after `job` was submitted: the job is pending behind all
    /// others, and the executor is usable, respawned where it was not.
    pub open spec fn executed(self, job: J) -> Engine<J> {
        let ready = if self.usable() {
            self
        } else {
            self.respawned()
        };
        Engine { sent: ready.sent.push(job), pending: ready.pending.push(job), ..ready }
    }

    /// What the worker is told when it asks for a job.
    pub open spec fn step(self) -> Step<J> {
        if !self.worker {
            Step::Quit
        } else if self.pending.len() > 0 {
            Step::Run(self.pending[0])
        } else if self.open {
            Step::Sleep
        } else {
            Step::Quit
        }
    }

    /// The executor after the worker asked for a job.
    pub open spec fn served(self) -> Engine<J> {
        if self.step() is Run {
            Engine {
                taken: self.taken.push(self.pending[0]),
                pending: self.pending.drop_first(),
                ..self
            }
        } else {
            self
        }
    }

    /// The executor after the worker ended: replaced where it ended
    /// abnormally, gone where it quit.
    pub open spec fn exited(self, panicking: bool) -> Engine<J> {
        Engine { worker: self.worker && panicking, ..self }
    }

    /// The executor after its sender was given up.
    pub open spec fn shut(self) -> Engine<J> {
        Engine { open: false, ..self }
    }

    /// The executor after all of `jobs` were submitted, in their order.
    pub open spec fn executed_all(self, jobs: Seq<J>) -> Engine<J>
        decreases jobs.len(),
    {
        if jobs.len() == 0 {
            self
        } else {
            self.executed_all(jobs.drop_last()).executed(jobs.last())
        }
    }

    /// The executor after the worker took and ran one job after the other,
    /// as many as `fails` is long, where `fails[i]` says whether the run of
    /// the `i`-th of them ended abnormally.
    pub open spec fn settled(self, fails: Seq<bool>) -> Engine<J>
        decreases fails.len(),
    {
        if fails.len() == 0 {
            self
        } else {
            let before = self.settled(fails.drop_last());
            if fails.last() {
                before.served().exited(true)
            } else {
                before.served()
            }
        }
    }

    /// The executor after one event.
    pub open spec fn after(self, event: Event<J>) -> Engine<J> {
        match event {
            Event::Execute(job) => self.executed(job),
            Event::Serve => self.served(),
            Event::Exit(panicking) => self.exited(panicking),
            Event::Shut => self.shut(),
        }
    }

    /// The executor after a run of events, in their order.
    pub open spec fn after_all(self, events: Seq<Event<J>>) -> Engine<J>
        decreases events.len(),
    {
        if events.len() == 0 {
            self
        } else {
            self.after_all(events.drop_last()).after(events.last())
        }
    }

    /// Every step keeps the account of the jobs: none is lost and none is
    /// handed out twice, whether a worker fails or not.
    pub proof fn lemma_steps_keep_inv(self, job: J, panicking: bool)
        requires
            self.inv(),
        ensures
            Self::start().inv(),
            self.executed(job).inv(),
            self.served().inv(),
            self.exited(panicking).inv(),
            self.respawned().inv(),
            self.shut().inv(),
    {
        assert(Self::start().sent =~= Self::start().taken + Self::start().pending);
        let ready = if self.usable() {
            self
        } else {
            self.respawned()
        };
        assert(ready.sent.push(job) =~= ready.taken + ready.pending.push(job));
        if self.step() is Run {
            assert(self.sent =~= self.taken.push(self.pending[0]) + self.pending.drop_first());
        }
    }

    /// After a worker failed, the executor is as usable as it was: the
    /// failed worker is replaced, the pending jobs are untouched, and a job
    /// submitted right then is pending behind them with a worker there to
    /// take it. Where nothing else was pending, it is the next job that the
    /// worker is told to run.
    pub proof fn lemma_usable_after_failure(self, job: J)
        requires
            self.inv(),
            self.worker,
        ensures
            self.exited(true) == self,
            self.exited(true).executed(job).usable(),
            self.exited(true).executed(job).inv(),
            self.exited(true).executed(job).pending == self.pending.push(job),
            self.pending.len() == 0 ==> self.exited(true).executed(job).step() == Step::Run(job),
    {
        self.lemma_steps_keep_inv(job, true);
    }

    /// A submission never fails for want of a worker: whatever became of
    /// the worker and of the sender, the executor is usable after it and the
    /// job is pending. Of submitters that find the executor unusable only
    /// the first makes it usable again: the next finds the sender and the
    /// worker that the first one published.
    pub proof fn lemma_execute_always_delivers(self, job: J, next: J)
        ensures
            self.executed(job).usable(),
            self.executed(job).pending == self.pending.push(job),
            self.executed(job).sent == self.sent.push(job),
            self.executed(job).taken == self.taken,
            self.executed(job).executed(next).generation == self.executed(job).generation,
    {
    }

    proof fn lemma_executed_all(self, jobs: Seq<J>)
        requires
            self.inv(),
        ensures
            self.executed_all(jobs).inv(),
            self.executed_all(jobs).sent == self.sent + jobs,
            self.executed_all(jobs).taken == self.taken,
            self.executed_all(jobs).pending == self.pending + jobs,
            jobs.len() > 0 ==> self.executed_all(jobs).usable(),
        decreases jobs.len(),
    {
        if jobs.len() == 0 {
            assert(self.sent + jobs =~= self.sent);
            assert(self.pending + jobs =~= self.pending);
        } else {
            let init = jobs.drop_last();
            self.lemma_executed_all(init);
            let before = self.executed_all(init);
            before.lemma_steps_keep_inv(jobs.last(), false);
            assert((self.sent + init).push(jobs.last()) =~= self.sent + jobs);
            assert((self.pending + init).push(jobs.last()) =~= self.pending + jobs);
        }
    }

    proof fn lemma_settled(self, fails: Seq<bool>)
        requires
            self.inv(),
            self.worker,
            fails.len() <= self.pending.len(),
        ensures
            self.settled(fails).inv(),
            self.settled(fails).worker,
            self.settled(fails).open == self.open,
            self.settled(fails).sent == self.sent,
            self.settled(fails).taken == self.taken + self.pending.take(fails.len() as int),
            self.settled(fails).pending == self.pending.skip(fails.len() as int),
        decreases fails.len(),
    {
        if fails.len() == 0 {
            assert(self.taken + self.pending.take(0) =~= self.taken);
            assert(self.pending.skip(0) =~= self.pending);
        } else {
            let init = fails.drop_last();
            self.lemma_settled(init);
            let before = self.settled(init);
            let n = init.len() as int;
            assert(before.pending.len() > 0);
            assert(before.step() is Run);
            before.lemma_steps_keep_inv(self.pending[0], fails.last());
            assert(before.pending[0] == self.pending[n]);
            assert(self.pending.take(n).push(self.pending[n]) =~= self.pending.take(n + 1));
            assert((self.taken + self.pending.take(n)).push(self.pending[n]) =~= self.taken
                + self.pending.take(n + 1));
            assert(before.pending.drop_first() =~= self.pending.skip(n + 1));
        }
    }

    /// Whatever happens to the executor, in whatever order, the account of
    /// its jobs is kept: every job that was accepted was handed out once, in
    /// the order of acceptance, or is pending.
    pub proof fn lemma_events_keep_inv(self, events: Seq<Event<J>>)
        requires
            self.inv(),
        ensures
            self.after_all(events).inv(),
        decreases events.len(),
    {
        if events.len() > 0 {
            self.lemma_events_keep_inv(events.drop_last());
            let before = self.after_all(events.drop_last());
            match events.last() {
                Event::Execute(job) => before.lemma_steps_keep_inv(job, false),
                Event::Exit(panicking) => before.lemma_steps_keep_inv(arbitrary(), panicking),
                _ => before.lemma_steps_keep_inv(arbitrary(), false),
            }
        }
    }

    /// Whatever has happened to the executor, one more submission and a
    /// worker that then takes and runs what is pending, with any of the runs
    /// ending abnormally, leave nothing undone: every job that was ever
    /// accepted, the last one too, was handed out exactly once, in the order
    /// of acceptance, and the executor is usable.
    pub proof fn lemma_every_job_runs_in_the_end(events: Seq<Event<J>>, job: J, fails: Seq<bool>)
        requires
            fails.len() == Self::start().after_all(events).executed(job).pending.len(),
        ensures
            Self::start().after_all(events).executed(job).settled(fails).taken
                == Self::start().after_all(events).sent.push(job),
            Self::start().after_all(events).executed(job).settled(fails).pending == Seq::<
                J,
            >::empty(),
            Self::start().after_all(events).executed(job).settled(fails).usable(),
    {
        let first = Self::start();
        first.lemma_steps_keep_inv(job, false);
        first.lemma_events_keep_inv(events);
        let before = first.after_all(events);
        before.lemma_steps_keep_inv(job, false);
        let loaded = before.executed(job);
        loaded.lemma_settled(fails);
        assert(loaded.pending.take(loaded.pending.len() as int) =~= loaded.pending);
        assert(loaded.pending.skip(loaded.pending.len() as int) =~= Seq::<J>::empty());
    }

    /// Submit any number of jobs and let the worker take and run them one
    /// after the other, with any of the runs ending abnormally: every job
    /// was handed out exactly once, in the order of submission, none is
    /// left pending, and the executor is usable as before.
    pub proof fn lemma_all_jobs_run_once(jobs: Seq<J>, fails: Seq<bool>)
        requires
            fails.len() == jobs.len(),
        ensures
            Self::start().executed_all(jobs).settled(fails).taken == jobs,
            Self::start().executed_all(jobs).settled(fails).sent == jobs,
            Self::start().executed_all(jobs).settled(fails).pending == Seq::<J>::empty(),
            Self::start().executed_all(jobs).settled(fails).usable(),
            Self::start().executed_all(jobs).settled(fails).inv(),
    {
        let first = Self::start();
        first.lemma_steps_keep_inv(arbitrary(), false);
        first.lemma_executed_all(jobs);
        let loaded = first.executed_all(jobs);
        assert(loaded.pending =~= jobs);
        assert(loaded.sent =~= jobs);
        assert(loaded.worker && loaded.open) by {
            if jobs.len() == 0 {
            }
        }
        loaded.lemma_settled(fails);
        assert(loaded.taken + jobs.take(jobs.len() as int) =~= jobs);
        assert(jobs.skip(jobs.len() as int) =~= Seq::<J>::empty());
    }
}

/// What a submission asks of the embedding program.
#[derive(Debug)]
pub struct Submitted {
    /// The receivers to wake.
    pub wake: Wake,
    /// The worker to put on a thread, where the executor had to be made
    /// usable again.
    pub spawn: Option<Sentinel>,
}

/// An executor which completes all jobs in FIFO order on a single
/// background worker.
///
/// Use this for when you have a low volume of asynchronous requests.
///
/// If the worker ends abnormally, it is replaced; subsequent jobs are
/// completed as normal.
#[verifier::reject_recursive_types(J)]
pub struct SingleThread<J> {
    queue: JobQueue<J>,
    sender: Option<Sender>,
    worker: Option<Sentinel>,
}

impl<J> SingleThread<J> {
    /// The state of the executor.
    pub closed spec fn view(&self) -> Engine<J> {
        Engine {
            sent: self.queue.sent(),
            taken: self.queue.taken(),
            pending: self.queue@,
            generation: self.queue.id(),
            worker: self.worker is Some,
            open: !self.queue.is_closed(),
        }
    }

    /// The invariant: the queue is sound, the published sender and the
    /// worker belong to it.
    pub closed spec fn wf(&self) -> bool {
        &&& self.queue.wf()
        &&& match self.sender {
            Some(s) => s.feeds(&self.queue) && self.queue.senders() == 1,
            None => self.queue.is_closed(),
        }
        &&& self.worker matches Some(s) ==> s.receiver().drains(&self.queue) && s.slot() == 0
    }

    /// The worker that the executor counts on, where it has one.
    pub closed spec fn sentinel(&self) -> Option<Sentinel> {
        self.worker
    }

    /// An executor that is sound keeps the account of its jobs, and its
    /// worker, where it has one, belongs to the queue of the day.
    pub proof fn lemma_wf_inv(&self)
        requires
            self.wf(),
        ensures
            self@.inv(),
            self@.sent.len() <= u64::MAX,
            self@.worker == self.sentinel() is Some,
            self.sentinel() matches Some(s) ==> s.slot() == 0 && s.receiver().queue_id()
                == self@.generation,
    {
        self.queue.lemma_each_job_once();
    }

    proof fn lemma_open(&self)
        requires
            self.wf(),
        ensures
            self@.open == self.sender is Some,
    {
        self.queue.lemma_closed_iff_no_sender();
    }

    /// Construct a new executor, with the worker that is to be put on a
    /// thread.
    pub fn new() -> (executor: Self)
        ensures
            executor.wf(),
            executor@ == Engine::<J>::start(),
    {
        let (sender, recv, queue) = channel(0);
        SingleThread { queue, sender: Some(sender), worker: Some(spawn_thread(0, recv)) }
    }

    /// Construct a new executor where the worker's thread could be spawned:
    /// `spawned` is what became of the attempt, and its error comes back as
    /// `Error::StdIo`.
    pub fn try_new(spawned: core::result::Result<(), String>) -> (executor: core::result::Result<
        Self,
        Error,
    >)
        ensures
            match spawned {
                Ok(_) => executor matches Ok(e) && e.wf() && e@ == Engine::<J>::start(),
                Err(e) => executor matches Err(err) && err == Error::StdIo(e),
            },
    {
        match spawned {
            Ok(_) => Ok(SingleThread::new()),
            Err(e) => Err(Error::StdIo(e)),
        }
    }

    /// The worker that the executor counts on, where it has one.
    pub fn worker(&self) -> (worker: Option<Sentinel>)
        ensures
            worker == self.sentinel(),
            worker is Some == self@.worker,
    {
        self.worker
    }

    /// Whether another submission can be counted: the executor has room
    /// for a job and for a queue number.
    pub open spec fn has_room(&self) -> bool {
        self@.sent.len() < u64::MAX && self@.generation < u64::MAX
    }

    /// Whether another submission can be counted.
    pub fn room(&self) -> (room: bool)
        requires
            self.wf(),
        ensures
            room == self.has_room(),
    {
        proof {
            self.queue.lemma_each_job_once();
        }
        self.queue.has_room() && self.queue.number() < u64::MAX
    }

    /// Put the pending jobs under a new queue number, with a new sender and
    /// a new worker.
    fn respawn(&mut self) -> (sentinel: Sentinel)
        requires
            old(self).wf(),
            old(self)@.generation < u64::MAX,
        ensures
            final(self).wf(),
            final(self)@ == old(self)@.respawned(),
            final(self).sentinel() == Some(sentinel),
    {
        let next = self.queue.number() + 1;
        let mut queue = channel(next).2;
        core::mem::swap(&mut self.queue, &mut queue);
        let (sender, recv, queue) = queue.renumbered(next);
        self.queue = queue;
        self.sender = Some(sender);
        let sentinel = spawn_thread(0, recv);
        self.worker = Some(sentinel);
        sentinel
    }

    /// Submit a job. The submission never fails and the caller is never
    /// made to wait: where the published sender no longer delivers or no
    /// worker is left, the executor is made usable again, once, and the job
    /// goes to the new queue. The answer names the receivers to wake and
    /// the worker to put on a thread, if one was made.
    pub fn execute(&mut self, job: J) -> (submitted: Submitted)
        requires
            old(self).wf(),
            old(self).has_room(),
        ensures
            final(self).wf(),
            final(self)@ == old(self)@.executed(job),
            submitted.wake == Wake::One,
            submitted.spawn is Some <==> !old(self)@.usable(),
            submitted.spawn is Some ==> submitted.spawn == final(self).sentinel(),
            submitted.spawn is None ==> final(self).sentinel() == old(self).sentinel(),
    {
        proof {
            self.queue.lemma_each_job_once();
            self.lemma_open();
        }
        let spawn = if self.worker.is_none() || self.sender.is_none() {
            Some(self.respawn())
        } else {
            None
        };
        proof {
            self.queue.lemma_closed_iff_no_sender();
            self.queue.lemma_each_job_once();
        }
        let sent = match &self.sender {
            Some(sender) => sender.send(&mut self.queue, job),
            None => Err(job),
        };
        match sent {
            Ok(wake) => Submitted { wake, spawn },
            Err(_) => unreached(),
        }
    }

    /// Tell the worker what to do next: run the oldest pending job, sleep,
    /// or quit. A worker that the executor does not count on is told to
    /// quit.
    pub fn next(&mut self, who: &Sentinel) -> (step: Step<J>)
        requires
            old(self).wf(),
        ensures
            final(self).wf(),
            final(self).sentinel() == old(self).sentinel(),
            old(self).sentinel() == Some(*who) ==> step == old(self)@.step() && final(self)@ == old(
                self)@.served(),
            old(self).sentinel() != Some(*who) ==> step is Quit && final(self)@ == old(self)@,
    {
        let known = match &self.worker {
            Some(s) => *s == *who,
            None => false,
        };
        if !known {
            return Step::Quit;
        }
        who.next(&mut self.queue)
    }

    /// Tell the executor that its worker ended. Where it ended abnormally
    /// the answer is the worker that takes its place, bound to the same
    /// receiver, to be put on a thread at once; no pending job is touched.
    /// Where it quit, or where the thread of a worker could not be spawned,
    /// the executor is left without a worker until the next submission.
    pub fn exited(&mut self, panicking: bool) -> (replacement: Option<Sentinel>)
        requires
            old(self).wf(),
        ensures
            final(self).wf(),
            final(self)@ == old(self)@.exited(panicking),
            replacement == (if panicking {
                old(self).sentinel()
            } else {
                None::<Sentinel>
            }),
            final(self).sentinel() == replacement,
    {
        let mut worker = None;
        core::mem::swap(&mut self.worker, &mut worker);
        match worker {
            Some(sentinel) => {
                self.worker = sentinel.on_exit(panicking);
            },
            None => {},
        }
        self.worker
    }

    /// Give the published sender up, which closes the queue: the worker
    /// runs what is pending and quits. A later submission makes the executor
    /// usable again.
    pub fn shut(&mut self) -> (wake: Wake)
        requires
            old(self).wf(),
        ensures
            final(self).wf(),
            final(self)@ == old(self)@.shut(),
            final(self).sentinel() == old(self).sentinel(),
            wake == (if old(self)@.open {
                Wake::All
            } else {
                Wake::Nobody
            }),
    {
        proof {
            self.queue.lemma_closed_iff_no_sender();
        }
        let mut sender = None;
        core::mem::swap(&mut self.sender, &mut sender);
        match sender {
            Some(sender) => sender.release(&mut self.queue),
            None => Wake::Nobody,
        }
    }
}

} // verus!
