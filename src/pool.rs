//! The dispatch core of a fixed-size worker pool.
//!
//! `PoolCore` holds the queue of control messages that connects the pool's
//! submitting side to its workers, and the state of every worker. The threads,
//! the lock around the core and the wake-ups live outside; every decision they
//! act on (which message a worker receives, when a worker stops, how shutdown
//! proceeds) is made here.
use std::collections::VecDeque;
use vstd::prelude::*;
use crate::counting::count_matching;
use crate::counting::lemma_count_all;
use crate::counting::lemma_count_bounded;
use crate::counting::lemma_count_concat;
use crate::counting::lemma_count_drop_first;
use crate::counting::lemma_count_member;
use crate::counting::lemma_count_positive;
use crate::counting::lemma_count_none;
use crate::counting::lemma_count_update;

verus! {

/// A control message on the queue: a job to run, or the order to stop.
pub enum Message<J> {
    NewJob(J),
    Terminate,
}

/// Where a worker stands: waiting for a message, running a job, or stopped for good.
#[derive(Clone, Copy, Debug, PartialEq, Eq, Structural)]
pub enum WorkerState {
    Idle,
    Busy,
    Terminated,
}

/// The test for a terminate message.
pub open spec fn is_terminate<J>() -> spec_fn(Message<J>) -> bool {
    |m: Message<J>| m is Terminate
}

/// The test for a job message.
pub open spec fn is_job<J>() -> spec_fn(Message<J>) -> bool {
    |m: Message<J>| m is NewJob
}

/// The test for a worker that has not stopped.
pub open spec fn is_live() -> spec_fn(WorkerState) -> bool {
    |w: WorkerState| w != WorkerState::Terminated
}

/// The test for a worker that is running a job.
pub open spec fn is_busy() -> spec_fn(WorkerState) -> bool {
    |w: WorkerState| w == WorkerState::Busy
}

/// `n` terminate messages.
pub open spec fn terminates<J>(n: nat) -> Seq<Message<J>> {
    Seq::new(n, |i: int| Message::<J>::Terminate)
}

/// The state a worker moves to after dequeuing `m`.
pub open spec fn state_after<J>(m: Message<J>) -> WorkerState {
    if m is Terminate {
        WorkerState::Terminated
    } else {
        WorkerState::Busy
    }
}

/// The shared queue of a pool together with the state of each of its workers.
///
/// Besides the executable state it records, as ghost data, every message ever
/// sent (in order), the worker that dequeued each message, and how many jobs
/// have run to completion.
pub struct PoolCore<J> {
    queue: VecDeque<Message<J>>,
    workers: Vec<WorkerState>,
    closing: bool,
    sent: Ghost<Seq<Message<J>>>,
    taken_by: Ghost<Seq<nat>>,
    completed: Ghost<nat>,
}

impl<J> PoolCore<J> {
    /// The messages waiting in the queue, oldest first.
    pub closed spec fn pending(&self) -> Seq<Message<J>> {
        self.queue@
    }

    /// The state of each worker, indexed by worker id.
    pub closed spec fn workers(&self) -> Seq<WorkerState> {
        self.workers@
    }

    /// Whether the terminate broadcast has been made.
    pub closed spec fn closing(&self) -> bool {
        self.closing
    }

    /// Every message ever sent, in the order of sending.
    pub closed spec fn sent(&self) -> Seq<Message<J>> {
        self.sent@
    }

    /// `taken_by()[i]` is the worker that dequeued the `i`-th message sent.
    pub closed spec fn taken_by(&self) -> Seq<nat> {
        self.taken_by@
    }

    /// How many jobs have run to completion.
    pub closed spec fn completed(&self) -> nat {
        self.completed@
    }

    /// The number of workers, fixed for the pool's lifetime.
    pub open spec fn size(&self) -> nat {
        self.workers().len()
    }

    /// Workers that have not stopped.
    pub open spec fn live_workers(&self) -> nat {
        count_matching(self.workers(), is_live())
    }

    /// Jobs being run at this moment, one per busy worker.
    pub open spec fn in_flight(&self) -> nat {
        count_matching(self.workers(), is_busy())
    }

    /// The messages that have left the queue, in order.
    pub open spec fn dequeued(&self) -> Seq<Message<J>> {
        self.sent().take(self.taken_by().len() as int)
    }

    /// Every part of the state agrees with `other`.
    pub open spec fn same_as(&self, other: Self) -> bool {
        &&& self.pending() == other.pending()
        &&& self.workers() == other.workers()
        &&& self.closing() == other.closing()
        &&& self.sent() == other.sent()
        &&& self.taken_by() == other.taken_by()
        &&& self.completed() == other.completed()
    }

    /// Lowered by every dequeue and by every finished job.
    pub open spec fn teardown_measure(&self) -> nat {
        2 * self.pending().len() + self.in_flight()
    }

    /// The invariant of the core:
    /// - the queue is what was sent and not yet dequeued, and every dequeue was
    ///   made by a worker of the pool;
    /// - each dequeued job has either finished or is running on a busy worker;
    /// - before the broadcast no terminate message exists and every worker runs;
    /// - after it the last message sent is a terminate message, and the queue
    ///   holds one terminate message per worker still running.
    pub open spec fn wf(&self) -> bool {
        &&& self.size() > 0
        &&& self.taken_by().len() <= self.sent().len()
        &&& self.pending() == self.sent().skip(self.taken_by().len() as int)
        &&& forall|i: int| 0 <= i < self.taken_by().len() ==> #[trigger] self.taken_by()[i] < self.size()
        &&& self.completed() + self.in_flight() == count_matching(self.dequeued(), is_job())
        &&& !self.closing() ==> {
            &&& count_matching(self.pending(), is_terminate()) == 0
            &&& self.live_workers() == self.size()
        }
        &&& self.closing() ==> {
            &&& self.sent().len() > 0
            &&& self.sent().last() is Terminate
            &&& count_matching(self.pending(), is_terminate()) == self.live_workers()
        }
    }

    /// A pool core with `size` idle workers, ids `0..size`, and an empty queue.
    pub fn new(size: usize) -> (r: Self)
        requires
            size > 0,
        ensures
            r.wf(),
            r.size() == size,
            forall|i: int| 0 <= i < size ==> #[trigger] r.workers()[i] == WorkerState::Idle,
            r.live_workers() == size,
            r.pending().len() == 0,
            r.sent().len() == 0,
            r.completed() == 0,
            !r.closing(),
    {
        let mut workers: Vec<WorkerState> = Vec::with_capacity(size);
        let mut id: usize = 0;
        while id < size
            invariant
                id <= size,
                workers@.len() == id,
                forall|i: int| 0 <= i < id ==> #[trigger] workers@[i] == WorkerState::Idle,
            decreases size - id,
        {
            workers.push(WorkerState::Idle);
            id += 1;
        }
        proof {
            lemma_count_all(workers@, is_live());
            lemma_count_none(workers@, is_busy());
        }
        let r = PoolCore {
            queue: VecDeque::new(),
            workers,
            closing: false,
            sent: Ghost(Seq::empty()),
            taken_by: Ghost(Seq::empty()),
            completed: Ghost(0),
        };
        assert(r.pending() =~= r.sent().skip(0));
        r
    }

    /// The number of workers.
    pub fn worker_count(&self) -> (r: usize)
        ensures
            r == self.size(),
    {
        self.workers.len()
    }

    /// The state of worker `id`.
    pub fn worker_state(&self, id: usize) -> (r: WorkerState)
        requires
            id < self.size(),
        ensures
            r == self.workers()[id as int],
    {
        self.workers[id]
    }

    /// Whether the terminate broadcast has been made.
    pub fn is_closing(&self) -> (r: bool)
        ensures
            r == self.closing(),
    {
        self.closing
    }

    /// Queues `job` behind every message sent so far.
    pub fn execute(&mut self, job: J)
        requires
            old(self).wf(),
            !old(self).closing(),
        ensures
            final(self).wf(),
            final(self).pending() == old(self).pending().push(Message::NewJob(job)),
            final(self).sent() == old(self).sent().push(Message::NewJob(job)),
            final(self).workers() == old(self).workers(),
            final(self).taken_by() == old(self).taken_by(),
            final(self).completed() == old(self).completed(),
            !final(self).closing(),
    {
        let ghost msg = Message::NewJob(job);
        let ghost t = self.taken_by@.len() as int;
        let ghost before = self.queue@;
        self.queue.push_back(Message::NewJob(job));
        self.sent = Ghost(self.sent@.push(msg));
        proof {
            assert(self.sent@.skip(t) =~= old(self).sent().skip(t).push(msg));
            assert(self.sent@.take(t) =~= old(self).sent().take(t));
            assert(self.queue@.drop_last() =~= before);
        }
    }

    /// First phase of shutdown: sends one terminate message per worker.
    pub fn broadcast_terminate(&mut self)
        requires
            old(self).wf(),
            !old(self).closing(),
        ensures
            final(self).wf(),
            final(self).closing(),
            final(self).pending() == old(self).pending() + terminates::<J>(old(self).size()),
            final(self).sent() == old(self).sent() + terminates::<J>(old(self).size()),
            final(self).workers() == old(self).workers(),
            final(self).taken_by() == old(self).taken_by(),
            final(self).completed() == old(self).completed(),
    {
        let n = self.workers.len();
        let mut k: usize = 0;
        while k < n
            invariant
                k <= n,
                n == self.workers@.len(),
                self.workers@ == old(self).workers(),
                self.taken_by@ == old(self).taken_by(),
                self.completed@ == old(self).completed(),
                !self.closing,
                self.queue@ == old(self).pending() + terminates::<J>(k as nat),
                self.sent@ == old(self).sent() + terminates::<J>(k as nat),
                self.sent@.skip(self.taken_by@.len() as int) == self.queue@,
                self.sent@.take(self.taken_by@.len() as int) == old(self).dequeued(),
                count_matching(self.queue@, is_terminate()) == k,
                old(self).wf(),
            decreases n - k,
        {
            let ghost t = self.taken_by@.len() as int;
            let ghost q = self.queue@;
            let ghost s = self.sent@;
            self.queue.push_back(Message::Terminate);
            self.sent = Ghost(self.sent@.push(Message::Terminate));
            proof {
                assert(self.queue@ =~= old(self).pending() + terminates::<J>((k + 1) as nat));
                assert(self.sent@ =~= old(self).sent() + terminates::<J>((k + 1) as nat));
                assert(self.sent@.skip(t) =~= s.skip(t).push(Message::Terminate));
                assert(self.sent@.take(t) =~= s.take(t));
                assert(self.queue@.drop_last() =~= q);
            }
            k += 1;
        }
        self.closing = true;
    }

    /// Worker `id`, idle, takes the oldest message in the queue, if there is one.
    ///
    /// A job makes the worker busy until `finish`; a terminate message stops it.
    /// `None` means the queue is empty and the worker must wait.
    pub fn recv(&mut self, id: usize) -> (m: Option<Message<J>>)
        requires
            old(self).wf(),
            id < old(self).size(),
            old(self).workers()[id as int] == WorkerState::Idle,
        ensures
            final(self).wf(),
            old(self).pending().len() == 0 ==> m is None && final(self).same_as(*old(self)),
            old(self).pending().len() > 0 ==> {
                &&& m == Some(old(self).pending()[0])
                &&& m == Some(old(self).sent()[old(self).taken_by().len() as int])
                &&& final(self).pending() == old(self).pending().drop_first()
                &&& final(self).taken_by() == old(self).taken_by().push(id as nat)
                &&& final(self).workers() == old(self).workers().update(
                    id as int,
                    state_after(old(self).pending()[0]),
                )
                &&& final(self).sent() == old(self).sent()
                &&& final(self).closing() == old(self).closing()
                &&& final(self).completed() == old(self).completed()
                &&& final(self).teardown_measure() < old(self).teardown_measure()
            },
    {
        let ghost t = self.taken_by@.len() as int;
        let ghost q = self.queue@;
        let ghost ws = self.workers@;
        match self.queue.pop_front() {
            None => None,
            Some(m) => {
                let next = match &m {
                    Message::NewJob(_) => WorkerState::Busy,
                    Message::Terminate => WorkerState::Terminated,
                };
                self.workers.set(id, next);
                self.taken_by = Ghost(self.taken_by@.push(id as nat));
                proof {
                    assert(q[0] == self.sent@[t]);
                    assert(self.queue@ =~= self.sent@.skip(t + 1));
                    assert(self.sent@.take(t + 1).drop_last() =~= self.sent@.take(t));
                    lemma_count_update(ws, id as int, next, is_busy());
                    lemma_count_update(ws, id as int, next, is_live());
                    lemma_count_drop_first(q, is_terminate());
                    assert forall|i: int| 0 <= i < self.taken_by@.len() implies #[trigger] self.taken_by@[i] < self.workers@.len() by {
                        if i < t {
                            assert(self.taken_by@[i] == old(self).taken_by()[i]);
                        }
                    }
                }
                Some(m)
            },
        }
    }

    /// Worker `id` has run its job to completion and is idle again.
    pub fn finish(&mut self, id: usize)
        requires
            old(self).wf(),
            id < old(self).size(),
            old(self).workers()[id as int] == WorkerState::Busy,
        ensures
            final(self).wf(),
            final(self).workers() == old(self).workers().update(id as int, WorkerState::Idle),
            final(self).completed() == old(self).completed() + 1,
            final(self).pending() == old(self).pending(),
            final(self).sent() == old(self).sent(),
            final(self).taken_by() == old(self).taken_by(),
            final(self).closing() == old(self).closing(),
            final(self).teardown_measure() < old(self).teardown_measure(),
    {
        let ghost ws = self.workers@;
        self.workers.set(id, WorkerState::Idle);
        self.completed = Ghost(self.completed@ + 1);
        proof {
            lemma_count_update(ws, id as int, WorkerState::Idle, is_busy());
            lemma_count_update(ws, id as int, WorkerState::Idle, is_live());
        }
    }

    /// The number of messages waiting in the queue.
    pub fn pending_len(&self) -> (r: usize)
        ensures
            r == self.pending().len(),
    {
        self.queue.len()
    }
}

/// Every job ever submitted is, at each moment, in exactly one place: finished,
/// running on one worker, or waiting in the queue. Each dequeued message was
/// taken by one worker of the pool.
pub proof fn lemma_jobs_accounted<J>(p: &PoolCore<J>)
    requires
        p.wf(),
    ensures
        p.completed() + p.in_flight() + count_matching(p.pending(), is_job())
            == count_matching(p.sent(), is_job()),
        forall|i: int| 0 <= i < p.taken_by().len() ==> #[trigger] p.taken_by()[i] < p.size(),
{
    let t = p.taken_by().len() as int;
    assert(p.dequeued() + p.pending() =~= p.sent());
    lemma_count_concat(p.dequeued(), p.pending(), is_job());
}

/// At no moment do more jobs run than the pool has workers.
pub proof fn lemma_in_flight_bounded<J>(p: &PoolCore<J>)
    requires
        p.wf(),
    ensures
        p.in_flight() <= p.size(),
{
    lemma_count_bounded(p.workers(), is_busy());
}

/// After the terminate broadcast, the queue holds exactly one terminate message
/// for each worker that has not stopped. So an idle worker never waits for a
/// message in vain, and since every dequeue and every finished job lowers
/// `teardown_measure`, every worker stops after finitely many steps and every
/// join returns.
pub proof fn lemma_teardown_progress<J>(p: &PoolCore<J>)
    requires
        p.wf(),
        p.closing(),
    ensures
        count_matching(p.pending(), is_terminate()) == p.live_workers(),
        forall|id: int|
            0 <= id < p.size() && #[trigger] p.workers()[id] == WorkerState::Idle
                ==> p.pending().len() > 0,
{
    assert forall|id: int|
        0 <= id < p.size() && #[trigger] p.workers()[id] == WorkerState::Idle
            implies p.pending().len() > 0 by {
        lemma_count_member(p.workers(), id, is_live());
        lemma_count_bounded(p.pending(), is_terminate());
    }
}

/// Once every worker has stopped, the queue is empty, no job is running, and
/// every job that was submitted has run to completion exactly once.
pub proof fn lemma_teardown_complete<J>(p: &PoolCore<J>)
    requires
        p.wf(),
        p.closing(),
        p.live_workers() == 0,
    ensures
        p.pending().len() == 0,
        p.taken_by().len() == p.sent().len(),
        p.in_flight() == 0,
        p.completed() == count_matching(p.sent(), is_job()),
{
    if p.pending().len() > 0 {
        let last = p.pending().len() - 1;
        assert(p.pending()[last] == p.sent().last());
        lemma_count_member(p.pending(), last, is_terminate());
    }
    if p.in_flight() > 0 {
        lemma_count_positive(p.workers(), is_busy());
        let id = choose|id: int| 0 <= id < p.workers().len() && is_busy()(#[trigger] p.workers()[id]);
        lemma_count_member(p.workers(), id, is_live());
    }
    lemma_jobs_accounted(p);
}

} // verus!
