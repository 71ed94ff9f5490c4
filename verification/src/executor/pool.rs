//! An executor wrapped around a thread pool.

use crate::executor::ExecBox;
use threadpool::ThreadPool;
use vstd::prelude::*;
use vstd::string::StringExecFns;

verus! {

/// `threadpool::ThreadPool`: nothing is seen inside it.
#[verifier::external_type_specification]
#[verifier::external_body]
pub struct ExThreadPool(ThreadPool);

/// `ThreadPool::with_name`: a pool that runs `num_threads` jobs at a time,
/// on threads of the given name. The outside function panics on a count of
/// zero and on a name that holds a NUL character, both of which `requires`
/// leaves out. It also panics where the machine refuses it a thread, which
/// no `requires` can tell beforehand. Nothing is stated of the pool: what
/// it does shows on its threads only.
#[verifier::external_body]
fn pool_with_name(name: String, num_threads: usize) -> (pool: ThreadPool)
    requires
        num_threads > 0,
        !name@.contains('\0'),
{
    ThreadPool::with_name(name, num_threads)
}

/// `ThreadPool::clone`: another handle to the same pool.
pub assume_specification[ <ThreadPool as Clone>::clone ](pool: &ThreadPool) -> (other: ThreadPool);

/// `ThreadPool::execute`: hands the job to the pool, which runs it on one
/// of its threads at a time of its choosing. Nothing is stated of when.
#[verifier::external_body]
fn pool_execute(pool: &ThreadPool, job: Box<dyn ExecBox>) {
    pool.execute(move || { let _ = job.exec(); })
}

/// An executor wrapped around a thread pool which can execute multiple
/// tasks concurrently.
///
/// Worker threads are automatically restarted when a job ends abnormally;
/// subsequent jobs are not affected.
#[derive(Clone)]
pub struct Pooled {
    pool: ThreadPool,
    threads: usize,
}

impl Pooled {
    /// The number of threads that the pool was asked for.
    pub closed spec fn size(&self) -> nat {
        self.threads as nat
    }

    /// Spawn a new thread pool with `num_threads` number of threads.
    ///
    /// The threads will be named such that they can be easily identified as
    /// workers for this crate.
    ///
    /// A pool of no threads is none, and the pool panics where the machine
    /// refuses it one of the threads that it is asked for.
    pub fn new(num_threads: usize) -> (executor: Self)
        requires
            num_threads > 0,
        ensures
            executor.size() == num_threads,
    {
        let name = String::from_str("anterofit_worker");
        proof {
            reveal_strlit("anterofit_worker");
            assert forall|i: int| 0 <= i < name@.len() implies name@[i] != '\0' by {}
        }
        Pooled { pool: pool_with_name(name, num_threads), threads: num_threads }
    }

    /// The number of threads that the pool was asked for.
    pub fn threads(&self) -> (count: usize)
        ensures
            count == self.size(),
    {
        self.threads
    }

    /// Hand the job to the pool.
    pub fn execute(&self, exec: Box<dyn ExecBox>) {
        pool_execute(&self.pool, exec)
    }
}

} // verus!
