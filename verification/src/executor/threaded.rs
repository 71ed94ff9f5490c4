//! Executors using background threads.

use crate::executor::{spawn_thread, Executor, Sentinel};
use crate::mpmc::Receiver;
use vstd::prelude::*;

verus! {

/// An executor which uses multiple threads to complete jobs.
#[derive(Debug)]
pub struct MultiThread {
    threads: usize,
}

impl MultiThread {
    /// The number of workers that the executor starts.
    pub closed spec fn count(&self) -> nat {
        self.threads as nat
    }

    /// Create a new multithreaded executor using the given thread count.
    ///
    /// No worker is named until `Executor::start()` is called.
    pub fn new(threads: usize) -> (executor: Self)
        ensures
            executor.count() == threads,
    {
        MultiThread { threads: threads }
    }

    /// The number of workers that the executor starts.
    pub fn threads(&self) -> (threads: usize)
        ensures
            threads == self.count(),
    {
        self.threads
    }
}

impl Executor for MultiThread {
    /// One worker for each slot, all taking jobs from `recv`. A worker that
    /// ends abnormally is replaced in its own slot, whatever the others do.
    open spec fn names(self, recv: Receiver, workers: Seq<Sentinel>) -> bool {
        &&& workers.len() == self.count()
        &&& forall|i: int|
            0 <= i < workers.len() ==> (#[trigger] workers[i]).slot() == i && workers[i].receiver()
                == recv
    }

    fn start(self, recv: Receiver) -> (workers: Vec<Sentinel>) {
        let mut workers: Vec<Sentinel> = Vec::new();
        let mut thread: usize = 0;
        while thread < self.threads
            invariant
                thread <= self.threads,
                workers@.len() == thread,
                forall|i: int|
                    0 <= i < workers@.len() ==> (#[trigger] workers@[i]).slot() == i
                        && workers@[i].receiver() == recv,
            decreases self.threads - thread,
        {
            workers.push(spawn_thread(thread, recv));
            thread = thread + 1;
        }
        workers
    }
}

/// An executor which uses a single thread to complete jobs.
#[derive(Debug)]
pub struct SingleThread(());

impl SingleThread {
    /// Create a new single-threaded executor.
    ///
    /// No worker is named until `Executor::start()` is called.
    pub fn new() -> (executor: Self) {
        SingleThread(())
    }
}

impl Default for SingleThread {
    fn default() -> (executor: Self) {
        SingleThread(())
    }
}

impl Executor for SingleThread {
    /// The one worker, in slot 0, which takes jobs from `recv`. If it ends
    /// abnormally it is replaced under the same name.
    open spec fn names(self, recv: Receiver, workers: Seq<Sentinel>) -> bool {
        workers.len() == 1 && workers[0].slot() == 0 && workers[0].receiver() == recv
    }

    fn start(self, recv: Receiver) -> (workers: Vec<Sentinel>) {
        let mut workers: Vec<Sentinel> = Vec::new();
        workers.push(spawn_thread(0, recv));
        workers
    }
}

} // verus!
