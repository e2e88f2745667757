//! A fixed-size pool of long-lived workers executing submitted jobs.
//!
//! A caller hands the pool no-argument jobs; each job is executed once, by
//! one worker, in the background.  Submitters and workers are connected by a
//! multi-producer channel whose single receiving end is shared by all
//! workers behind a lock.  Tearing the pool down broadcasts one terminate
//! signal per worker and then joins every worker.
//!
//! The pool itself cannot create operating-system threads; that is the one
//! piece of outside work left to its embedder.  It is generic over a handle
//! type `H`: construction takes a `spawner` that starts a worker on a fresh
//! shared receiving end and returns its handle, and shutdown takes a `join`
//! that waits on one handle.  An embedder backs these with real threads and
//! gets the classic pool; a worker's whole body is [`worker_step`] repeated
//! until it says to stop.  Everything else — construction, the hand-off
//! protocol, the dequeue-dispatch step, and the two-phase teardown
//! bookkeeping — is verified here.

use vstd::prelude::*;

use std::sync::mpsc::Receiver;
use std::sync::mpsc::Sender;
use std::sync::Arc;
use std::sync::Mutex;

verus! {

/// The envelope that travels through the hand-off channel: either one job to
/// execute, carried by value, or the signal that tells a worker to exit its
/// loop.
pub enum Message<F> {
    NewJob(F),
    Terminate,
}

#[verifier::external_type_specification]
#[verifier::external_body]
#[verifier::reject_recursive_types(T)]
pub struct ExSender<T>(Sender<T>);

#[verifier::external_type_specification]
#[verifier::external_body]
#[verifier::reject_recursive_types(T)]
pub struct ExReceiver<T>(Receiver<T>);

#[verifier::external_type_specification]
#[verifier::external_body]
#[verifier::reject_recursive_types(T)]
pub struct ExMutex<T: ?Sized>(Mutex<T>);

/// Relies on std::sync::mpsc::channel: returns a connected pair, the sending
/// end delivering every sent value to the receiving end exactly once.
#[verifier::external_body]
fn new_channel<T>() -> (ends: (Sender<T>, Receiver<T>)) {
    std::sync::mpsc::channel()
}

/// Relies on std::sync::Mutex::new: wraps a value so that at most one
/// caller at a time can reach it.
#[verifier::external_body]
fn new_lock<T>(t: T) -> (m: Mutex<T>) {
    Mutex::new(t)
}

/// Relies on alloc::sync::Arc::clone: the clone is one more handle to the
/// same shared value.
#[verifier::external_body]
fn share<T>(a: &Arc<T>) -> (c: Arc<T>)
    ensures
        c == *a,
{
    Arc::clone(a)
}

/// Relies on std::sync::mpsc::Sender::send: places the message in the
/// channel, to be handed out by exactly one receive call.  A send can fail
/// only once the receiving end is gone; the pool keeps a shared handle to
/// the receiving end inside every worker until shutdown, so a failure is an
/// internal invariant violation and, as the pool's contract has it, fatal.
#[verifier::external_body]
fn send_message<F: FnOnce() + Send + 'static>(sender: &Sender<Message<F>>, m: Message<F>)
    requires
        m matches Message::NewJob(job) ==> call_requires(job, ()),
{
    sender.send(m).unwrap();
}

/// One atomic dequeue step, as seen by a worker.  Relies on
/// std::sync::Mutex::lock, which admits one caller at a time, and on
/// std::sync::mpsc::Receiver::recv, which blocks until it can hand over a
/// message that was sent, each sent message going to exactly one receive
/// call.  Every job in this channel was placed there by send_message, whose
/// precondition demands a callable job, so the job handed back here is
/// callable.  A receive can fail only once the sending end is gone; the
/// pool owns its sending end for as long as its workers run, so a failure
/// is an internal invariant violation and fatal.
#[verifier::external_body]
fn recv_message<F: FnOnce() + Send + 'static>(
    receiver: &Arc<Mutex<Receiver<Message<F>>>>,
) -> (m: Message<F>)
    ensures
        m matches Message::NewJob(job) ==> call_requires(job, ()),
{
    receiver.lock().unwrap().recv().unwrap()
}

/// A worker's dispatch on one message, the whole of its decision logic: a
/// job message has its job invoked — once, to completion, on the caller's
/// thread, the call consuming the job so no second invocation can exist —
/// and the worker goes on; the terminate signal runs nothing and stops the
/// worker.  There is no third outcome.
pub fn dispatch<F: FnOnce() + Send + 'static>(m: Message<F>) -> (go_on: bool)
    requires
        m matches Message::NewJob(job) ==> call_requires(job, ()),
    ensures
        go_on == (m is NewJob),
        m matches Message::NewJob(job) ==> call_ensures(job, (), ()),
{
    match m {
        Message::NewJob(job) => {
            job();
            true
        },
        Message::Terminate => false,
    }
}

/// One beat of a worker's life: draw the next message from the shared
/// receiving end and act on it through [`dispatch`].  Returns whether the
/// worker should go on: `false` exactly when the message drawn was the
/// terminate signal, after which the worker must not draw again.  What is
/// returned depends on what the channel hands over, which is outside the
/// model, so the step's own contract is silent and the dispatch carries
/// the stated one.  A worker is this step repeated until it returns
/// `false`; the repetition cannot be bounded here — how many jobs a worker
/// will see is never known in advance — so the embedder supplies it
/// (`while worker_step(&receiver) {}`).  A job that panics ends the worker
/// abnormally, and the pool permanently loses that execution slot; this is
/// the accepted contract, not a fault the pool detects or repairs.
pub fn worker_step<F: FnOnce() + Send + 'static>(
    receiver: &Arc<Mutex<Receiver<Message<F>>>>,
) -> (go_on: bool) {
    let msg = recv_message(receiver);
    dispatch(msg)
}

/// One execution slot of the pool: an index, given at construction and
/// never reassigned, and the handle of the slot's worker.  The handle is
/// consumed when the worker is joined, so a worker can be joined at most
/// once.
pub struct Worker<H> {
    id: usize,
    handle: Option<H>,
}

impl<H> Worker<H> {
    /// The index this worker was given at construction.
    pub closed spec fn spec_id(self) -> usize {
        self.id
    }

    /// True until the worker's handle has been taken for joining.
    pub closed spec fn has_handle(self) -> bool {
        self.handle is Some
    }

    /// True once the worker's handle has been taken for joining.
    pub closed spec fn is_joined(self) -> bool {
        self.handle is None
    }

    /// The handle of this worker, while it still holds one.
    pub closed spec fn spec_handle(self) -> Option<H> {
        self.handle
    }

    /// Starts one worker on the given shared receiving end, through the
    /// embedder's `spawner`, and records its index and handle.  The handle
    /// recorded is the spawner's own result on that receiving end — the
    /// worker is tied to the channel it was given, not to one of its own.
    pub fn new<F: FnOnce() + Send + 'static, S: Fn(Arc<Mutex<Receiver<Message<F>>>>) -> H>(
        id: usize,
        receiver: Arc<Mutex<Receiver<Message<F>>>>,
        spawner: &S,
    ) -> (w: Worker<H>)
        requires
            call_requires(*spawner, (receiver,)),
        ensures
            w.spec_id() == id,
            w.has_handle(),
            call_ensures(*spawner, (receiver,), w.spec_handle()->Some_0),
    {
        let handle = spawner(receiver);
        Worker { id, handle: Some(handle) }
    }
}

/// The pool: a fixed, ordered collection of workers and the sending end of
/// the hand-off channel.  `F` is the type of the jobs it runs; `H` is the
/// embedder's handle to a running worker.
#[verifier::reject_recursive_types(F)]
pub struct ThreadPool<F, H> {
    workers: Vec<Worker<H>>,
    sender: Sender<Message<F>>,
}

impl<F: FnOnce() + Send + 'static, H> ThreadPool<F, H> {
    /// How many workers the pool owns.  Fixed at construction.
    pub closed spec fn num_workers(self) -> nat {
        self.workers@.len()
    }

    /// The worker at position `i`.
    pub closed spec fn worker_at(self, i: int) -> Worker<H> {
        self.workers@[i]
    }

    /// Worker `i` sits at position `i` and keeps that index for ever.
    pub closed spec fn workers_indexed(self) -> bool {
        forall|i: int|
            0 <= i < self.workers@.len() ==> (#[trigger] self.workers@[i]).spec_id() == i
    }

    /// Every worker still holds its handle: the pool has not been shut down.
    pub closed spec fn live(self) -> bool {
        forall|i: int| 0 <= i < self.workers@.len() ==> (#[trigger] self.workers@[i]).has_handle()
    }

    /// Every worker's handle has been consumed for joining: the pool has
    /// been shut down.
    pub closed spec fn stopped(self) -> bool {
        forall|i: int| 0 <= i < self.workers@.len() ==> (#[trigger] self.workers@[i]).is_joined()
    }

    /// Every worker's handle is `spawner`'s own result on the one shared
    /// receiving end `shared`: the workers compete for a single channel,
    /// none sits on a private one.
    pub open spec fn all_spawned_on<S: Fn(Arc<Mutex<Receiver<Message<F>>>>) -> H>(
        self,
        spawner: S,
        shared: Arc<Mutex<Receiver<Message<F>>>>,
    ) -> bool {
        forall|i: int|
            0 <= i < self.num_workers() ==> #[trigger] call_ensures(
                spawner,
                (shared,),
                self.worker_at(i).spec_handle()->Some_0,
            )
    }

    /// The pool's invariant: at least one worker, each at the position of
    /// its index, and either none of them joined yet (live) or all of them
    /// (shut down).  Construction establishes it and every method keeps it.
    pub open spec fn wf(self) -> bool {
        &&& self.num_workers() >= 1
        &&& self.workers_indexed()
        &&& (self.live() || self.stopped())
    }

    /// Builds a pool of exactly `size` workers: one channel, its receiving
    /// end shared behind one lock, and one worker per index in `0..size`,
    /// each started by the embedder's `spawner` on its own handle to the
    /// shared receiving end.
    ///
    /// A pool of no workers is meaningless and asking for one is a fatal
    /// mistake, so `size >= 1` is demanded of every caller.  Exhaustion
    /// while starting workers is the spawner's to surface; the embedder's
    /// spawner ends the process when the platform refuses it a thread.
    ///
    /// The last clause ties the pool together: there is one shared
    /// receiving end such that every worker's handle is the spawner's
    /// result on it — the workers compete for a single channel, none sits
    /// on a private one.
    pub fn new<S: Fn(Arc<Mutex<Receiver<Message<F>>>>) -> H>(
        size: usize,
        spawner: S,
    ) -> (pool: ThreadPool<F, H>)
        requires
            size >= 1,
            forall|r: Arc<Mutex<Receiver<Message<F>>>>| call_requires(spawner, (r,)),
        ensures
            pool.wf(),
            pool.live(),
            pool.num_workers() == size,
            exists|shared: Arc<Mutex<Receiver<Message<F>>>>| pool.all_spawned_on(spawner, shared),
    {
        let (sender, receiver): (Sender<Message<F>>, Receiver<Message<F>>) = new_channel();
        let receiver: Arc<Mutex<Receiver<Message<F>>>> = Arc::new(new_lock(receiver));
        let mut workers: Vec<Worker<H>> = Vec::new();
        let mut i: usize = 0;
        while i < size
            invariant
                i <= size,
                workers@.len() == i,
                forall|j: int|
                    0 <= j < i ==> (#[trigger] workers@[j]).spec_id() == j
                        && workers@[j].has_handle(),
                forall|j: int|
                    0 <= j < i ==> call_ensures(
                        spawner,
                        (receiver,),
                        (#[trigger] workers@[j]).spec_handle()->Some_0,
                    ),
                forall|r: Arc<Mutex<Receiver<Message<F>>>>| call_requires(spawner, (r,)),
            decreases size - i,
        {
            workers.push(Worker::new(i, share(&receiver), &spawner));
            i = i + 1;
        }
        let pool = ThreadPool { workers, sender };
        proof {
            assert(pool.all_spawned_on(spawner, receiver));
        }
        pool
    }

    /// Hands one job to the pool.  The job is wrapped in an envelope and
    /// sent on the channel; exactly one worker will dequeue and execute it.
    /// Submission returns at once — it never waits for the job, reports no
    /// result, and never rejects work, however deep the queue.  The pool
    /// must still be live: teardown is what ends the receiving side's life,
    /// so on a live pool the send cannot fail.
    pub fn run(&self, f: F)
        requires
            self.live(),
            call_requires(f, ()),
    {
        send_message(&self.sender, Message::NewJob(f));
    }

    /// The two-phase teardown.  Phase one broadcasts exactly one terminate
    /// signal per worker — all of them before any join, so no worker is
    /// ever awaited while the signal that would release it is still
    /// unsent.  Phase two walks the workers in index order, consumes each
    /// one's handle, and waits on it through the embedder's `join`; a
    /// worker whose handle is already gone is skipped, so a second teardown
    /// of an already-stopped pool sends nothing, joins nothing, and changes
    /// nothing.  Jobs already dequeued are finished by their workers before
    /// the join returns; jobs still in the channel are abandoned, which is
    /// the pool's documented contract.
    pub fn shutdown<J: Fn(H)>(&mut self, join: J)
        requires
            old(self).wf(),
            forall|h: H| call_requires(join, (h,)),
        ensures
            final(self).wf(),
            final(self).stopped(),
            final(self).num_workers() == old(self).num_workers(),
            old(self).stopped() ==> *final(self) == *old(self),
            forall|i: int|
                0 <= i < old(self).num_workers() && (#[trigger] old(self).worker_at(
                    i,
                )).has_handle() ==> call_ensures(
                    join,
                    (old(self).worker_at(i).spec_handle()->Some_0,),
                    (),
                ),
    {
        if self.workers[0].handle.is_none() {
            return;
        }
        let n = self.workers.len();
        let mut signals_sent: usize = 0;
        while signals_sent < n
            invariant
                *self == *old(self),
                signals_sent <= n,
            decreases n - signals_sent,
        {
            send_message(&self.sender, Message::Terminate);
            signals_sent = signals_sent + 1;
        }
        let ghost before = *self;
        let mut done: Vec<Worker<H>> = Vec::new();
        while self.workers.len() > 0
            invariant
                before == *old(self),
                before.workers_indexed(),
                before.live(),
                done@.len() + self.workers@.len() == before.workers@.len(),
                forall|j: int|
                    0 <= j < self.workers@.len() ==> #[trigger] self.workers@[j]
                        == before.workers@[done@.len() + j],
                forall|i: int|
                    0 <= i < done@.len() ==> (#[trigger] done@[i]).spec_id() == i
                        && done@[i].is_joined(),
                forall|i: int|
                    0 <= i < done@.len() ==> call_ensures(
                        join,
                        ((#[trigger] before.worker_at(i)).spec_handle()->Some_0,),
                        (),
                    ),
                self.sender == before.sender,
                forall|h: H| call_requires(join, (h,)),
            decreases self.workers@.len(),
        {
            let mut w = self.workers.remove(0);
            match w.handle.take() {
                Some(h) => join(h),
                None => {},
            }
            done.push(w);
        }
        self.workers = done;
    }
}

} // verus!
