// The pool is exercised here with deferred workers: the spawner hands each
// worker's shared receiving end back as its handle, and the join supplied to
// shutdown runs the worker's dequeue-dispatch loop on the spot.  Teardown
// broadcasts every terminate signal before the first join, so each drain
// runs the jobs still queued and stops on a terminate signal — the whole
// hand-off protocol, deterministic and on one thread.

use std::sync::atomic::AtomicUsize;
use std::sync::atomic::Ordering;
use std::sync::mpsc::Receiver;
use std::sync::Arc;
use std::sync::Mutex;

use threadpool::dispatch;
use threadpool::worker_step;
use threadpool::Message;
use threadpool::ThreadPool;
use threadpool::Worker;

type Shared<F> = Arc<Mutex<Receiver<Message<F>>>>;

fn drain<F: FnOnce() + Send + 'static>(h: Shared<F>) {
    while worker_step(&h) {}
}

#[test]
fn pool_runs_every_job_exactly_once() {
    let counter = Arc::new(AtomicUsize::new(0));
    let mut pool = ThreadPool::new(4, |r| r);
    for _ in 0..10 {
        let c = Arc::clone(&counter);
        pool.run(move || {
            c.fetch_add(1, Ordering::SeqCst);
        });
    }
    pool.shutdown(drain);
    assert_eq!(counter.load(Ordering::SeqCst), 10);
}

#[test]
fn shutdown_finishes_submitted_work_before_returning() {
    let flag = Arc::new(AtomicUsize::new(0));
    let f = Arc::clone(&flag);
    let mut pool = ThreadPool::new(1, |r| r);
    pool.run(move || {
        f.store(1, Ordering::SeqCst);
    });
    assert_eq!(flag.load(Ordering::SeqCst), 0);
    pool.shutdown(drain);
    assert_eq!(flag.load(Ordering::SeqCst), 1);
}

#[test]
fn idle_pool_shuts_down_and_joins_both_workers() {
    let joins = AtomicUsize::new(0);
    let mut pool: ThreadPool<fn(), Shared<fn()>> = ThreadPool::new(2, |r| r);
    pool.shutdown(|h| {
        joins.fetch_add(1, Ordering::SeqCst);
        drain(h);
    });
    assert_eq!(joins.load(Ordering::SeqCst), 2);
}

#[test]
fn pool_owns_exactly_the_requested_number_of_workers() {
    for n in [1usize, 2, 7] {
        let joins = AtomicUsize::new(0);
        let mut pool: ThreadPool<fn(), Shared<fn()>> = ThreadPool::new(n, |r| r);
        pool.shutdown(|h| {
            joins.fetch_add(1, Ordering::SeqCst);
            drain(h);
        });
        assert_eq!(joins.load(Ordering::SeqCst), n);
    }
}

#[test]
fn second_teardown_is_a_safe_no_op() {
    let mut pool: ThreadPool<fn(), Shared<fn()>> = ThreadPool::new(2, |r| r);
    pool.shutdown(drain);
    let joins = AtomicUsize::new(0);
    pool.shutdown(|h| {
        joins.fetch_add(1, Ordering::SeqCst);
        drain(h);
    });
    assert_eq!(joins.load(Ordering::SeqCst), 0);
}

#[test]
fn single_worker_runs_jobs_in_submission_order() {
    let log = Arc::new(Mutex::new(Vec::new()));
    let mut pool = ThreadPool::new(1, |r| r);
    for k in 0..5 {
        let l = Arc::clone(&log);
        pool.run(move || {
            l.lock().unwrap().push(k);
        });
    }
    pool.shutdown(drain);
    assert_eq!(*log.lock().unwrap(), vec![0, 1, 2, 3, 4]);
}

#[test]
fn dispatch_runs_the_job_and_goes_on() {
    let ran = Arc::new(AtomicUsize::new(0));
    let r = Arc::clone(&ran);
    let go_on = dispatch(Message::NewJob(move || {
        r.fetch_add(1, Ordering::SeqCst);
    }));
    assert!(go_on);
    assert_eq!(ran.load(Ordering::SeqCst), 1);
}

#[test]
fn dispatch_stops_on_terminate_and_runs_nothing() {
    let go_on = dispatch(Message::<fn()>::Terminate);
    assert!(!go_on);
}

#[test]
fn worker_runs_queued_jobs_and_stops_on_terminate() {
    let (sender, receiver) = std::sync::mpsc::channel();
    let shared = Arc::new(Mutex::new(receiver));
    let ran = Arc::new(AtomicUsize::new(0));
    let r = Arc::clone(&ran);
    sender
        .send(Message::NewJob(move || {
            r.fetch_add(1, Ordering::SeqCst);
        }))
        .unwrap();
    sender.send(Message::Terminate).unwrap();
    let _worker = Worker::new(3, Arc::clone(&shared), &|h| h);
    while worker_step(&shared) {}
    assert_eq!(ran.load(Ordering::SeqCst), 1);
}
