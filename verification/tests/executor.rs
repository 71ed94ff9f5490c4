use anterofit::error::Error;
use anterofit::executor::pool::Pooled;
use anterofit::executor::single::SingleThread;
use anterofit::executor::threaded::MultiThread;
use anterofit::executor::{
    serve, spawn_thread, work, ExecBox, Executor, Noop, Outcome, Sentinel, Step,
};
use anterofit::mpmc::{channel, JobQueue, Wake};
use anterofit::net::call::{oneshot, Call, PanicGuard};
use anterofit::net::method::HttpMethod;
use anterofit::net::request::RequestHead;
use std::sync::atomic::{AtomicUsize, Ordering};
use std::sync::Arc;

struct Count {
    counter: Arc<AtomicUsize>,
    guard: PanicGuard<usize>,
    fails: bool,
}

impl ExecBox for Count {
    fn exec(self: Box<Self>) -> Outcome {
        let mut this = *self;
        if this.fails {
            return Outcome::Panicked;
        }
        let seen = this.counter.fetch_add(1, Ordering::SeqCst);
        this.guard.complete(Ok(seen));
        Outcome::Done
    }
}

fn counting(
    counter: &Arc<AtomicUsize>,
    number: usize,
    fails: bool,
) -> (Box<dyn ExecBox>, Call<usize>) {
    let head = RequestHead::new(HttpMethod::Get, format!("/job/{}", number));
    let (guard, call) = oneshot(Some(head));
    let job: Box<dyn ExecBox> = Box::new(Count { counter: counter.clone(), guard, fails });
    (job, call)
}

fn run_until_quiet(executor: &mut SingleThread<Box<dyn ExecBox>>) -> usize {
    let mut worker = executor.worker().expect("a usable executor has a worker");
    let mut started = 0;
    loop {
        match executor.next(&worker) {
            Step::Run(job) => {
                started += 1;
                if job.exec() == Outcome::Panicked {
                    worker = executor.exited(true).expect("a failed worker is replaced");
                }
            }
            Step::Sleep | Step::Quit => return started,
        }
    }
}

#[test]
fn hundred_jobs_with_one_failure_settle() {
    let counter = Arc::new(AtomicUsize::new(0));
    let mut executor: SingleThread<Box<dyn ExecBox>> = SingleThread::new();
    let mut calls = Vec::new();
    for number in 0..100 {
        let (job, call) = counting(&counter, number, number == 42);
        assert!(executor.room());
        let submitted = executor.execute(job);
        assert_eq!(submitted.wake, Wake::One);
        assert!(submitted.spawn.is_none());
        calls.push(call);
    }
    assert_eq!(run_until_quiet(&mut executor), 100);
    assert_eq!(counter.load(Ordering::SeqCst), 99);
    for (number, call) in calls.into_iter().enumerate() {
        match call.block() {
            Ok(seen) => {
                assert_ne!(number, 42);
                assert_eq!(seen, if number < 42 { number } else { number - 1 });
            }
            Err(Error::Panic(panicked)) => {
                assert_eq!(number, 42);
                assert_eq!(panicked.0.get_url(), "/job/42");
            }
            Err(_) => panic!("a job fails with the head of its request or not at all"),
        }
    }
}

#[test]
fn every_job_runs_once_whichever_fail() {
    let counter = Arc::new(AtomicUsize::new(0));
    let mut executor: SingleThread<Box<dyn ExecBox>> = SingleThread::new();
    let mut calls = Vec::new();
    for number in 0..30 {
        let (job, call) = counting(&counter, number, number % 3 == 0);
        executor.execute(job);
        calls.push(call);
    }
    assert_eq!(run_until_quiet(&mut executor), 30);
    assert_eq!(run_until_quiet(&mut executor), 0);
    assert_eq!(counter.load(Ordering::SeqCst), 20);
    for (number, call) in calls.into_iter().enumerate() {
        assert_eq!(call.block().is_err(), number % 3 == 0);
    }
}

#[test]
fn executor_is_usable_after_a_worker_failure() {
    let counter = Arc::new(AtomicUsize::new(0));
    let mut executor: SingleThread<Box<dyn ExecBox>> = SingleThread::new();
    let (bad, bad_call) = counting(&counter, 0, true);
    executor.execute(bad);
    let first = executor.worker().unwrap();
    match executor.next(&first) {
        Step::Run(job) => assert_eq!(job.exec(), Outcome::Panicked),
        _ => panic!("the pending job is handed out"),
    }
    let replacement = executor.exited(true).expect("a failed worker is replaced");
    assert_eq!(replacement.thread(), 0);
    assert_eq!(replacement, first);
    assert!(bad_call.block().is_err());

    let (good, good_call) = counting(&counter, 1, false);
    let submitted = executor.execute(good);
    assert!(submitted.spawn.is_none());
    match executor.next(&replacement) {
        Step::Run(job) => assert_eq!(job.exec(), Outcome::Done),
        _ => panic!("the job submitted after the failure is handed out"),
    }
    assert!(matches!(good_call.block(), Ok(0)));
}

#[test]
fn executor_without_worker_respawns_on_the_next_submission() {
    let counter = Arc::new(AtomicUsize::new(0));
    let mut executor: SingleThread<Box<dyn ExecBox>> = SingleThread::new();
    let (waiting, waiting_call) = counting(&counter, 0, false);
    executor.execute(waiting);
    let old = executor.worker().unwrap();
    assert!(executor.exited(false).is_none());
    assert!(executor.worker().is_none());
    assert!(matches!(executor.next(&old), Step::Quit));

    let (job, call) = counting(&counter, 1, false);
    let submitted = executor.execute(job);
    let fresh = submitted.spawn.expect("the submission names the new worker");
    assert_eq!(executor.worker(), Some(fresh));
    assert_ne!(fresh, old);
    assert!(matches!(executor.next(&old), Step::Quit));
    assert_eq!(run_until_quiet(&mut executor), 2);
    assert!(matches!(waiting_call.block(), Ok(0)));
    assert!(matches!(call.block(), Ok(1)));
}

#[test]
fn shut_executor_respawns_once() {
    let counter = Arc::new(AtomicUsize::new(0));
    let mut executor: SingleThread<Box<dyn ExecBox>> = SingleThread::new();
    assert_eq!(executor.shut(), Wake::All);
    assert_eq!(executor.shut(), Wake::Nobody);
    let worker = executor.worker().unwrap();
    assert!(matches!(executor.next(&worker), Step::Quit));
    let (first, first_call) = counting(&counter, 0, false);
    let (second, second_call) = counting(&counter, 1, false);
    assert!(executor.execute(first).spawn.is_some());
    assert!(executor.execute(second).spawn.is_none());
    assert_eq!(run_until_quiet(&mut executor), 2);
    assert!(matches!(first_call.block(), Ok(0)));
    assert!(matches!(second_call.block(), Ok(1)));
}

#[test]
fn try_new_reports_a_failed_spawn() {
    let made: Result<SingleThread<u32>, Error> = SingleThread::try_new(Ok(()));
    assert!(made.is_ok());
    let failed: Result<SingleThread<u32>, Error> =
        SingleThread::try_new(Err("no more threads".to_string()));
    match failed {
        Err(Error::StdIo(text)) => assert_eq!(text, "no more threads"),
        _ => panic!("a spawn that failed is an I/O error"),
    }
}

#[test]
fn worker_loop_runs_pending_jobs_until_one_fails() {
    let counter = Arc::new(AtomicUsize::new(0));
    let (tx, rx, mut queue): (_, _, JobQueue<Box<dyn ExecBox>>) = channel(0);
    let mut calls = Vec::new();
    for number in 0..5 {
        let (job, call) = counting(&counter, number, number == 2);
        tx.send(&mut queue, job).ok().expect("an open queue takes the job");
        calls.push(call);
    }
    let sentinel = spawn_thread(3, rx);
    assert_eq!(work(&sentinel, &mut queue), (3, Outcome::Panicked));
    let replacement = sentinel.on_exit(true).expect("a failed worker is replaced");
    assert_eq!(replacement.thread(), 3);
    assert_eq!(work(&replacement, &mut queue), (2, Outcome::Done));
    assert_eq!(work(&replacement, &mut queue), (0, Outcome::Done));
    assert!(replacement.on_exit(false).is_none());
    assert_eq!(counter.load(Ordering::SeqCst), 4);
    for (number, call) in calls.into_iter().enumerate() {
        assert_eq!(call.block().is_err(), number == 2);
    }
}

#[test]
fn worker_names_carry_the_slot() {
    let (_tx, rx, _queue): (_, _, JobQueue<u32>) = channel(0);
    assert_eq!(spawn_thread(0, rx).name(), "anterofit_worker_0");
    assert_eq!(spawn_thread(12, rx).name(), "anterofit_worker_12");
    assert_eq!(spawn_thread(12, rx).recv(), rx);
}

#[test]
fn multi_thread_names_one_worker_per_slot() {
    let (_tx, rx, _queue): (_, _, JobQueue<u32>) = channel(0);
    let executor = MultiThread::new(4);
    assert_eq!(executor.threads(), 4);
    let workers: Vec<Sentinel> = executor.start(rx);
    assert_eq!(workers.len(), 4);
    for (slot, worker) in workers.iter().enumerate() {
        assert_eq!(worker.thread(), slot);
        assert_eq!(worker.recv(), rx);
    }
    assert!(MultiThread::new(0).start(rx).is_empty());
}

#[test]
fn single_thread_names_one_worker() {
    let (_tx, rx, _queue): (_, _, JobQueue<u32>) = channel(0);
    let workers = anterofit::executor::threaded::SingleThread::new().start(rx);
    assert_eq!(workers.len(), 1);
    assert_eq!(workers[0].thread(), 0);
    assert_eq!(workers[0].name(), "anterofit_worker_0");
}

#[test]
fn pool_workers_share_one_queue() {
    let counter = Arc::new(AtomicUsize::new(0));
    let (tx, rx, mut queue): (_, _, JobQueue<Box<dyn ExecBox>>) = channel(0);
    let workers = MultiThread::new(3).start(rx);
    let mut calls = Vec::new();
    for number in 0..9 {
        let (job, call) = counting(&counter, number, number == 4);
        tx.send(&mut queue, job).ok().unwrap();
        calls.push(call);
    }
    let mut turn = 0;
    let mut started = 0;
    loop {
        let worker = workers[turn % workers.len()];
        turn += 1;
        match worker.next(&mut queue) {
            Step::Run(job) => {
                started += 1;
                if job.exec() == Outcome::Panicked {
                    assert_eq!(worker.on_exit(true), Some(worker));
                }
            }
            Step::Sleep => break,
            Step::Quit => panic!("an open queue is not closed"),
        }
    }
    assert_eq!(started, 9);
    assert_eq!(counter.load(Ordering::SeqCst), 8);
    for (number, call) in calls.into_iter().enumerate() {
        assert_eq!(call.block().is_err(), number == 4);
    }
}

#[test]
fn noop_job_is_done() {
    assert_eq!(<dyn ExecBox>::noop().exec(), Outcome::Done);
    assert_eq!(Box::new(Noop).exec(), Outcome::Done);
    let (tx, rx, mut queue): (_, _, JobQueue<Box<dyn ExecBox>>) = channel(0);
    let job: Box<dyn ExecBox> = <dyn ExecBox>::noop();
    tx.send(&mut queue, job).ok().expect("an open queue takes the job");
    assert_eq!(work(&spawn_thread(0, rx), &mut queue), (1, Outcome::Done));
}

#[test]
fn pooled_runs_as_many_jobs_at_a_time_as_asked() {
    let pool = Pooled::new(3);
    assert_eq!(pool.threads(), 3);
    assert_eq!(pool.clone().threads(), 3);
}

#[test]
fn pooled_runs_the_job() {
    let counter = Arc::new(AtomicUsize::new(0));
    let pool = Pooled::new(2);
    let (job, call) = counting(&counter, 0, false);
    pool.execute(job);
    assert!(matches!(call.block(), Ok(0)));
    assert_eq!(counter.load(Ordering::SeqCst), 1);
}

#[test]
fn worker_and_its_replacements_run_every_job_once() {
    let counter = Arc::new(AtomicUsize::new(0));
    let (tx, rx, mut queue): (_, _, JobQueue<Box<dyn ExecBox>>) = channel(0);
    let mut calls = Vec::new();
    for number in 0..100 {
        let (job, call) = counting(&counter, number, number == 42);
        tx.send(&mut queue, job).ok().expect("an open queue takes the job");
        calls.push(call);
    }
    let worker = spawn_thread(0, rx);
    assert_eq!(serve(&worker, &mut queue), (100, 1));
    assert_eq!(serve(&worker, &mut queue), (0, 0));
    assert_eq!(counter.load(Ordering::SeqCst), 99);
    for (number, call) in calls.into_iter().enumerate() {
        match call.block() {
            Ok(seen) => assert_eq!(seen, if number < 42 { number } else { number - 1 }),
            Err(Error::Panic(panicked)) => {
                assert_eq!(number, 42);
                assert_eq!(panicked.0.get_url(), "/job/42");
            }
            Err(_) => panic!("a job fails with the head of its request or not at all"),
        }
    }
}

#[test]
fn replacements_go_on_whichever_jobs_fail() {
    let counter = Arc::new(AtomicUsize::new(0));
    let (tx, rx, mut queue): (_, _, JobQueue<Box<dyn ExecBox>>) = channel(0);
    for number in 0..12 {
        let (job, call) = counting(&counter, number, number % 2 == 1);
        tx.send(&mut queue, job).ok().expect("an open queue takes the job");
        call.ignore();
    }
    let (_other_tx, other_rx, _other): (_, _, JobQueue<u32>) = channel(9);
    assert_eq!(serve(&spawn_thread(0, other_rx), &mut queue), (0, 0));
    assert_eq!(serve(&spawn_thread(1, rx), &mut queue), (12, 6));
    assert_eq!(counter.load(Ordering::SeqCst), 6);
}
