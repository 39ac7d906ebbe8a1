//! The dispatch model of the thread pool.
//!
//! A pool of `size` workers consumes control messages from one shared FIFO
//! queue. A `NewJob` message carries one task; a `Terminate` message tells
//! the worker that dequeues it to exit. Submissions are accepted only while
//! the pool is open; shutting down appends exactly one `Terminate` per
//! worker and closes the pool.
//!
//! This module is the sequential heart of the dispatcher: it owns every
//! decision (admission, ordering, worker transitions) while the thread
//! spawning, channel plumbing and joining around it merely carry these
//! decisions out. The ghost `submitted` and `delivered` histories tie the
//! queue to its delivery record, which is how the delivery laws at the
//! bottom of the file are stated and proved.

use vstd::prelude::*;
use vstd::pervasive::VecAdditionalExecFns;

verus! {

/// A control message on the dispatch queue: either a unit of work, or an
/// instruction to the receiving worker to exit its loop.
pub enum Message<T> {
    NewJob(T),
    Terminate,
}

/// The three states of a worker's consume/execute loop. `Terminated` is
/// terminal: no transition leaves it.
#[derive(Clone, Copy, Debug, PartialEq, Eq, Structural)]
pub enum WorkerState {
    Idle,
    Executing,
    Terminated,
}

/// Rejected pool construction: a pool must have at least one worker.
#[derive(Clone, Copy, Debug, PartialEq, Eq, Structural)]
pub enum ConstructionError {
    ZeroSize,
}

/// Rejected submission: the pool had already begun shutting down.
#[derive(Clone, Copy, Debug, PartialEq, Eq, Structural)]
pub enum SubmissionError {
    Closed,
}

/// Rejected shutdown: the pool had already been shut down once.
#[derive(Clone, Copy, Debug, PartialEq, Eq, Structural)]
pub enum ShutdownError {
    AlreadyShutdown,
}

/// The tasks carried by the `NewJob` messages of `q`, in queue order.
pub open spec fn run_payloads<T>(q: Seq<Message<T>>) -> Seq<T>
    decreases q.len(),
{
    if q.len() == 0 {
        Seq::empty()
    } else {
        match q[0] {
            Message::NewJob(t) => seq![t] + run_payloads(q.drop_first()),
            Message::Terminate => run_payloads(q.drop_first()),
        }
    }
}

/// How many `Terminate` messages `q` holds.
pub open spec fn stop_count<T>(q: Seq<Message<T>>) -> nat
    decreases q.len(),
{
    if q.len() == 0 {
        0
    } else {
        stop_count(q.drop_first()) + if q[0] is Terminate {
            1nat
        } else {
            0nat
        }
    }
}

/// How many workers of `ws` are in state `s`.
pub open spec fn state_count(ws: Seq<WorkerState>, s: WorkerState) -> nat
    decreases ws.len(),
{
    if ws.len() == 0 {
        0
    } else {
        state_count(ws.drop_first(), s) + if ws[0] == s {
            1nat
        } else {
            0nat
        }
    }
}

proof fn lemma_run_payloads_push<T>(q: Seq<Message<T>>, m: Message<T>)
    ensures
        run_payloads(q.push(m)) == (match m {
            Message::NewJob(t) => run_payloads(q).push(t),
            Message::Terminate => run_payloads(q),
        }),
        stop_count(q.push(m)) == stop_count(q) + if m is Terminate {
            1nat
        } else {
            0nat
        },
    decreases q.len(),
{
    reveal_with_fuel(run_payloads, 2);
    reveal_with_fuel(stop_count, 2);
    if q.len() == 0 {
        assert(q.push(m).drop_first() =~= Seq::empty());
        match m {
            Message::NewJob(t) => {
                assert(run_payloads(q.push(m)) =~= run_payloads(q).push(t));
            },
            Message::Terminate => {},
        }
    } else {
        assert(q.push(m).drop_first() =~= q.drop_first().push(m));
        lemma_run_payloads_push(q.drop_first(), m);
        match q[0] {
            Message::NewJob(t0) => {
                match m {
                    Message::NewJob(t) => {
                        assert(run_payloads(q.push(m)) =~= run_payloads(q).push(t));
                    },
                    Message::Terminate => {
                        assert(run_payloads(q.push(m)) =~= run_payloads(q));
                    },
                }
            },
            Message::Terminate => {},
        }
    }
}

proof fn lemma_state_count_update(ws: Seq<WorkerState>, i: int, v: WorkerState, s: WorkerState)
    requires
        0 <= i < ws.len(),
    ensures
        state_count(ws.update(i, v), s) == state_count(ws, s) + (if v == s {
            1nat
        } else {
            0nat
        }) - (if ws[i] == s {
            1nat
        } else {
            0nat
        }),
    decreases ws.len(),
{
    if i == 0 {
        assert(ws.update(0, v).drop_first() =~= ws.drop_first());
    } else {
        assert(ws.update(i, v).drop_first() =~= ws.drop_first().update(i - 1, v));
        lemma_state_count_update(ws.drop_first(), i - 1, v, s);
    }
}

proof fn lemma_state_count_le_len(ws: Seq<WorkerState>, s: WorkerState)
    ensures
        state_count(ws, s) <= ws.len(),
        state_count(ws, s) == ws.len() ==> forall|i: int| 0 <= i < ws.len() ==> ws[i] == s,
        (exists|i: int| 0 <= i < ws.len() && ws[i] == s) ==> state_count(ws, s) >= 1,
    decreases ws.len(),
{
    if ws.len() > 0 {
        lemma_state_count_le_len(ws.drop_first(), s);
        if state_count(ws, s) == ws.len() {
            assert(forall|i: int|
                1 <= i < ws.len() ==> #[trigger] ws[i] == ws.drop_first()[i - 1]);
        }
        if exists|i: int| 0 <= i < ws.len() && ws[i] == s {
            let i = choose|i: int| 0 <= i < ws.len() && ws[i] == s;
            if i > 0 {
                assert(ws.drop_first()[i - 1] == s);
            }
        }
    }
}

proof fn lemma_stop_count_zero<T>(q: Seq<Message<T>>)
    requires
        stop_count(q) == 0,
    ensures
        forall|i: int| 0 <= i < q.len() ==> !(q[i] is Terminate),
    decreases q.len(),
{
    if q.len() > 0 {
        lemma_stop_count_zero(q.drop_first());
        assert(forall|i: int| 1 <= i < q.len() ==> q[i] == q.drop_first()[i - 1]);
    }
}

/// The fixed-size worker pool, modelled down to its dispatch queue.
///
/// `queue` is the FIFO of control messages not yet consumed; `workers`
/// records the loop state of each worker; `open` says whether submissions
/// are still admitted. The ghost `submitted` and `delivered` sequences
/// record, in order, every task ever admitted and every task ever handed
/// to a worker.
pub struct ThreadPool<T> {
    queue: Vec<Message<T>>,
    workers: Vec<WorkerState>,
    open: bool,
    submitted: Ghost<Seq<T>>,
    delivered: Ghost<Seq<T>>,
}

impl<T> ThreadPool<T> {
    /// The loop states of the workers, indexed by worker id.
    pub closed spec fn worker_states(&self) -> Seq<WorkerState> {
        self.workers@
    }

    /// The number of workers the pool was built with.
    pub open spec fn spec_size(&self) -> nat {
        self.worker_states().len()
    }

    /// Whether the pool still admits submissions.
    pub closed spec fn is_open(&self) -> bool {
        self.open
    }

    /// The control messages sent but not yet consumed, in FIFO order.
    pub closed spec fn queue_view(&self) -> Seq<Message<T>> {
        self.queue@
    }

    /// Every task ever admitted by `execute`, in submission order.
    pub closed spec fn submitted_tasks(&self) -> Seq<T> {
        self.submitted@
    }

    /// Every task ever handed to a worker, in delivery order.
    pub closed spec fn delivered_tasks(&self) -> Seq<T> {
        self.delivered@
    }

    /// The tasks still waiting in the queue, in FIFO order.
    pub open spec fn pending_tasks(&self) -> Seq<T> {
        run_payloads(self.queue_view())
    }

    /// The number of workers currently executing a task.
    pub open spec fn executing_count(&self) -> nat {
        state_count(self.worker_states(), WorkerState::Executing)
    }

    /// The pool invariant.
    ///
    /// - the pool has at least one worker;
    /// - `Terminate` messages sit behind every `NewJob` still queued;
    /// - while the pool is open, no `Terminate` is queued and no worker
    ///   has terminated;
    /// - once closed, the queued `Terminate` messages and the terminated
    ///   workers together account for exactly one stop per worker;
    /// - the tasks admitted are exactly the tasks delivered followed by
    ///   the tasks still queued, in order.
    pub closed spec fn inv(&self) -> bool {
        &&& self.workers@.len() >= 1
        &&& forall|i: int, j: int|
            0 <= i < j < self.queue@.len() && self.queue@[i] is Terminate
                ==> self.queue@[j] is Terminate
        &&& self.open ==> stop_count(self.queue@) == 0
        &&& self.open ==> state_count(self.workers@, WorkerState::Terminated) == 0
        &&& !self.open ==> stop_count(self.queue@) + state_count(
            self.workers@,
            WorkerState::Terminated,
        ) == self.workers@.len()
        &&& self.submitted@ == self.delivered@ + run_payloads(self.queue@)
    }

    /// Create a pool of `size` workers, all idle, with an empty queue.
    /// A zero size is rejected before anything else happens.
    pub fn new(size: usize) -> (r: Result<ThreadPool<T>, ConstructionError>)
        ensures
            size == 0 <==> r is Err,
            r matches Err(e) ==> e == ConstructionError::ZeroSize,
            r matches Ok(p) ==> {
                &&& p.inv()
                &&& p.spec_size() == size
                &&& p.is_open()
                &&& p.queue_view() == Seq::<Message<T>>::empty()
                &&& p.submitted_tasks() == Seq::<T>::empty()
                &&& p.delivered_tasks() == Seq::<T>::empty()
                &&& forall|w: int| 0 <= w < size ==> p.worker_states()[w] is Idle
            },
    {
        if size == 0 {
            return Err(ConstructionError::ZeroSize);
        }
        let mut workers: Vec<WorkerState> = Vec::new();
        let mut id: usize = 0;
        while id < size
            invariant
                id <= size,
                workers@.len() == id,
                forall|w: int| 0 <= w < id ==> workers@[w] is Idle,
                state_count(workers@, WorkerState::Terminated) == 0,
                state_count(workers@, WorkerState::Executing) == 0,
            decreases size - id,
        {
            proof {
                lemma_state_count_push(workers@, WorkerState::Idle, WorkerState::Terminated);
                lemma_state_count_push(workers@, WorkerState::Idle, WorkerState::Executing);
            }
            workers.push(WorkerState::Idle);
            id = id + 1;
        }
        Ok(ThreadPool {
            queue: Vec::new(),
            workers,
            open: true,
            submitted: Ghost(Seq::empty()),
            delivered: Ghost(Seq::empty()),
        })
    }

    /// Submit one task. While the pool is open the task is appended to the
    /// queue (and to the submission history); once shutdown has begun the
    /// task is rejected unchanged with `Closed`.
    pub fn execute(&mut self, task: T) -> (r: Result<(), SubmissionError>)
        requires
            old(self).inv(),
        ensures
            final(self).inv(),
            final(self).spec_size() == old(self).spec_size(),
            final(self).worker_states() == old(self).worker_states(),
            final(self).is_open() == old(self).is_open(),
            final(self).delivered_tasks() == old(self).delivered_tasks(),
            old(self).is_open() ==> {
                &&& r is Ok
                &&& final(self).queue_view() == old(self).queue_view().push(
                    Message::NewJob(task),
                )
                &&& final(self).submitted_tasks() == old(self).submitted_tasks().push(task)
                &&& final(self).pending_tasks() == old(self).pending_tasks().push(task)
            },
            !old(self).is_open() ==> {
                &&& r matches Err(e) && e == SubmissionError::Closed
                &&& final(self).queue_view() == old(self).queue_view()
                &&& final(self).submitted_tasks() == old(self).submitted_tasks()
            },
    {
        if !self.open {
            return Err(SubmissionError::Closed);
        }
        proof {
            lemma_run_payloads_push(self.queue@, Message::NewJob(task));
            lemma_stop_count_zero(self.queue@);
            assert(self.submitted@.push(task) =~= self.delivered@ + run_payloads(
                self.queue@,
            ).push(task));
            assert(self.delivered@ + run_payloads(self.queue@).push(task) =~= self.delivered@
                + run_payloads(self.queue@.push(Message::NewJob(task))));
        }
        self.submitted = Ghost(self.submitted@.push(task));
        self.queue.push(Message::NewJob(task));
        Ok(())
    }

    /// Begin shutdown: append exactly one `Terminate` message per worker —
    /// behind every task already queued — and stop admitting submissions.
    /// A second shutdown is rejected with `AlreadyShutdown` and changes
    /// nothing.
    pub fn shutdown(&mut self) -> (r: Result<(), ShutdownError>)
        requires
            old(self).inv(),
        ensures
            final(self).inv(),
            final(self).spec_size() == old(self).spec_size(),
            final(self).worker_states() == old(self).worker_states(),
            final(self).submitted_tasks() == old(self).submitted_tasks(),
            final(self).delivered_tasks() == old(self).delivered_tasks(),
            !final(self).is_open(),
            old(self).is_open() ==> {
                &&& r is Ok
                &&& final(self).queue_view().len() == old(self).queue_view().len()
                    + old(self).spec_size()
                &&& forall|i: int|
                    0 <= i < old(self).queue_view().len()
                        ==> final(self).queue_view()[i] == old(self).queue_view()[i]
                &&& forall|i: int|
                    old(self).queue_view().len() <= i < final(self).queue_view().len()
                        ==> final(self).queue_view()[i] is Terminate
                &&& final(self).pending_tasks() == old(self).pending_tasks()
            },
            !old(self).is_open() ==> {
                &&& r matches Err(e) && e == ShutdownError::AlreadyShutdown
                &&& final(self).queue_view() == old(self).queue_view()
            },
    {
        if !self.open {
            return Err(ShutdownError::AlreadyShutdown);
        }
        let ghost q0 = self.queue@;
        let size = self.workers.len();
        let mut sent: usize = 0;
        while sent < size
            invariant
                sent <= size,
                self.workers@ == old(self).workers@,
                self.open == old(self).open,
                self.submitted@ == old(self).submitted@,
                self.delivered@ == old(self).delivered@,
                size == self.workers@.len(),
                self.queue@.len() == q0.len() + sent,
                forall|i: int| 0 <= i < q0.len() ==> self.queue@[i] == q0[i],
                forall|i: int| q0.len() <= i < self.queue@.len() ==> self.queue@[i] is Terminate,
                run_payloads(self.queue@) == run_payloads(q0),
                stop_count(self.queue@) == stop_count(q0) + sent,
            decreases size - sent,
        {
            proof {
                lemma_run_payloads_push(self.queue@, Message::Terminate);
            }
            self.queue.push(Message::Terminate);
            sent = sent + 1;
        }
        self.open = false;
        proof {
            lemma_stop_count_zero(q0);
            assert forall|i: int| 0 <= i < q0.len() implies !(self.queue@[i] is Terminate) by {
                assert(self.queue@[i] == q0[i]);
                assert(!(q0[i] is Terminate));
            }
        }
        Ok(())
    }

    /// One worker's attempt to dequeue the next control message; this
    /// models the blocking `receive` of the real queue, where `None` means
    /// the worker would keep waiting. The front message — always the
    /// oldest — is consumed by exactly this worker: a `NewJob` moves the
    /// worker to `Executing` and appends the task to the delivery history;
    /// a `Terminate` moves it to `Terminated`.
    pub fn receive(&mut self, worker: usize) -> (r: Option<Message<T>>)
        requires
            old(self).inv(),
            worker < old(self).spec_size(),
            old(self).worker_states()[worker as int] is Idle,
        ensures
            final(self).inv(),
            final(self).spec_size() == old(self).spec_size(),
            final(self).is_open() == old(self).is_open(),
            final(self).submitted_tasks() == old(self).submitted_tasks(),
            old(self).queue_view().len() == 0 ==> r is None && *final(self) == *old(self),
            old(self).queue_view().len() > 0 ==> {
                &&& r == Some(old(self).queue_view()[0])
                &&& final(self).queue_view() == old(self).queue_view().drop_first()
                &&& forall|w: int|
                    0 <= w < old(self).spec_size() && w != worker
                        ==> final(self).worker_states()[w] == old(self).worker_states()[w]
                &&& (match old(self).queue_view()[0] {
                    Message::NewJob(t) => {
                        &&& final(self).worker_states()[worker as int] is Executing
                        &&& final(self).delivered_tasks() == old(self).delivered_tasks().push(
                            t,
                        )
                        &&& final(self).pending_tasks() == old(self).pending_tasks().drop_first()
                    },
                    Message::Terminate => {
                        &&& final(self).worker_states()[worker as int] is Terminated
                        &&& final(self).delivered_tasks() == old(self).delivered_tasks()
                        &&& final(self).pending_tasks() == old(self).pending_tasks()
                    },
                })
            },
    {
        if self.queue.len() == 0 {
            return None;
        }
        let ghost q0 = self.queue@;
        let msg = self.queue.remove(0);
        proof {
            assert(q0.remove(0) =~= q0.drop_first());
            assert(forall|i: int|
                0 <= i < self.queue@.len() ==> #[trigger] self.queue@[i] == q0[i + 1]);
        }
        match &msg {
            Message::NewJob(t) => {
                proof {
                    lemma_state_count_update(
                        self.workers@,
                        worker as int,
                        WorkerState::Executing,
                        WorkerState::Terminated,
                    );
                    assert(self.delivered@.push(*t) + run_payloads(self.queue@)
                        =~= self.delivered@ + run_payloads(q0));
                }
                self.delivered = Ghost(self.delivered@.push(*t));
                self.workers.set(worker, WorkerState::Executing);
            },
            Message::Terminate => {
                proof {
                    lemma_state_count_update(
                        self.workers@,
                        worker as int,
                        WorkerState::Terminated,
                        WorkerState::Terminated,
                    );
                }
                self.workers.set(worker, WorkerState::Terminated);
            },
        }
        Some(msg)
    }

    /// The worker's task has returned (or its fault was caught and
    /// reported): the worker goes back to waiting. A fault never costs the
    /// pool a worker.
    pub fn finish(&mut self, worker: usize)
        requires
            old(self).inv(),
            worker < old(self).spec_size(),
            old(self).worker_states()[worker as int] is Executing,
        ensures
            final(self).inv(),
            final(self).spec_size() == old(self).spec_size(),
            final(self).is_open() == old(self).is_open(),
            final(self).queue_view() == old(self).queue_view(),
            final(self).submitted_tasks() == old(self).submitted_tasks(),
            final(self).delivered_tasks() == old(self).delivered_tasks(),
            final(self).worker_states() == old(self).worker_states().update(
                worker as int,
                WorkerState::Idle,
            ),
    {
        proof {
            lemma_state_count_update(
                self.workers@,
                worker as int,
                WorkerState::Idle,
                WorkerState::Terminated,
            );
        }
        self.workers.set(worker, WorkerState::Idle);
    }

    /// The loop state of one worker, for callers that drive the model.
    pub fn worker_state(&self, worker: usize) -> (r: WorkerState)
        requires
            worker < self.spec_size(),
        ensures
            r == self.worker_states()[worker as int],
    {
        self.workers[worker]
    }

    /// The number of workers, as built.
    pub fn size(&self) -> (r: usize)
        ensures
            r == self.spec_size(),
    {
        self.workers.len()
    }

    /// How many control messages are still queued.
    pub fn queued_len(&self) -> (r: usize)
        ensures
            r == self.queue_view().len(),
    {
        self.queue.len()
    }
}

proof fn lemma_state_count_push(ws: Seq<WorkerState>, v: WorkerState, s: WorkerState)
    ensures
        state_count(ws.push(v), s) == state_count(ws, s) + if v == s {
            1nat
        } else {
            0nat
        },
    decreases ws.len(),
{
    reveal_with_fuel(state_count, 2);
    if ws.len() == 0 {
        assert(ws.push(v).drop_first() =~= Seq::empty());
    } else {
        assert(ws.push(v).drop_first() =~= ws.drop_first().push(v));
        lemma_state_count_push(ws.drop_first(), v, s);
    }
}

/// Every delivery is a submitted task, delivered in submission order: the
/// delivery history is exactly the first `delivered` submissions, and what
/// is still pending is exactly the rest, in order. With one worker this
/// degenerates to strict serial FIFO execution.
pub proof fn lemma_fifo_delivery<T>(p: &ThreadPool<T>)
    requires
        p.inv(),
    ensures
        p.delivered_tasks() == p.submitted_tasks().take(p.delivered_tasks().len() as int),
        p.pending_tasks() == p.submitted_tasks().skip(p.delivered_tasks().len() as int),
        p.submitted_tasks().len() == p.delivered_tasks().len() + p.pending_tasks().len(),
{
    assert(p.delivered_tasks() =~= p.submitted_tasks().take(p.delivered_tasks().len() as int));
    assert(p.pending_tasks() =~= p.submitted_tasks().skip(p.delivered_tasks().len() as int));
}

/// No task is skipped and none runs twice: once the queue has been fully
/// drained, the tasks handed to workers are exactly the tasks submitted,
/// one delivery per submission, in submission order.
pub proof fn lemma_each_task_delivered_once<T>(p: &ThreadPool<T>)
    requires
        p.inv(),
        p.queue_view().len() == 0,
    ensures
        p.delivered_tasks() == p.submitted_tasks(),
{
    assert(p.delivered_tasks() =~= p.submitted_tasks());
}

/// Deterministic termination: once shutdown has begun and the queue has
/// been fully drained, every worker has consumed its one `Terminate` and
/// reached the terminal state.
pub proof fn lemma_drained_pool_terminated<T>(p: &ThreadPool<T>)
    requires
        p.inv(),
        !p.is_open(),
        p.queue_view().len() == 0,
    ensures
        forall|w: int| 0 <= w < p.spec_size() ==> p.worker_states()[w] is Terminated,
{
    lemma_state_count_le_len(p.worker_states(), WorkerState::Terminated);
}

/// Concurrency is bounded by the pool size: at most `size` tasks execute
/// at once, and while every worker is busy no worker is idle — so no
/// further task can be dequeued until some task finishes.
pub proof fn lemma_bounded_concurrency<T>(p: &ThreadPool<T>)
    requires
        p.inv(),
    ensures
        p.executing_count() <= p.spec_size(),
        p.executing_count() == p.spec_size() ==> forall|w: int|
            0 <= w < p.spec_size() ==> !(p.worker_states()[w] is Idle),
{
    lemma_state_count_le_len(p.worker_states(), WorkerState::Executing);
}

/// One step of the worker state machine, as seen from a worker's loop: a
/// waiting worker that receives `NewJob(t)` moves to `Executing` and must
/// run `t`; one that receives `Terminate` moves to `Terminated` and runs
/// nothing. These are the only transitions out of `Idle`.
pub fn worker_step<T>(state: WorkerState, msg: Message<T>) -> (r: (WorkerState, Option<T>))
    requires
        state is Idle,
    ensures
        msg matches Message::NewJob(t) ==> r.0 is Executing && r.1 == Some(t),
        msg is Terminate ==> r.0 is Terminated && r.1 is None,
{
    match msg {
        Message::NewJob(t) => (WorkerState::Executing, Some(t)),
        Message::Terminate => (WorkerState::Terminated, None),
    }
}

/// The transition taken when a running task returns: the worker goes back
/// to waiting. This is also the transition taken when a task faults and
/// the fault is caught at the loop boundary, so a fault never removes a
/// worker from the pool.
pub fn worker_task_done(state: WorkerState) -> (r: WorkerState)
    requires
        state is Executing,
    ensures
        r is Idle,
{
    WorkerState::Idle
}

} // verus!
