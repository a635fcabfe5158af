//! The worker pool's protocol: a first-in, first-out queue of jobs and terminate
//! tokens, and what each worker does with what it takes from the queue.
//!
//! The pool holds the queue and the workers' states and takes every decision. Its
//! owner puts it behind one lock, runs one thread per worker, and lets each thread
//! ask `next_task` again whenever the job it was given has returned.

use std::collections::VecDeque;
use vstd::prelude::*;

verus! {

/// One entry of the work queue.
#[derive(Debug, PartialEq, Eq)]
pub enum Message<J> {
    /// A job to run.
    Run(J),
    /// The token that tells the worker that takes it to exit.
    Terminate,
}

/// What a worker is doing.
#[derive(Clone, Copy, Debug, PartialEq, Eq)]
pub enum WorkerState {
    /// Not running a job: it has not asked yet, or found the queue empty and waits.
    Idle,
    /// Running the job it was given last.
    Busy,
    /// Gone for good, after a terminate token.
    Exited,
}

/// What a worker that asked for work is told.
#[derive(Debug, PartialEq, Eq)]
pub enum Assignment<J> {
    /// Run this job, then ask again.
    Run(J),
    /// The queue is empty: block until something is put in, then ask again.
    Wait,
    /// Leave the loop and end the thread.
    Exit,
}

/// The pool as plain values.
#[verifier::ext_equal]
pub struct PoolState<J> {
    /// The queue, oldest entry first.
    pub queue: Seq<Message<J>>,
    /// The state of each worker, by its index.
    pub workers: Seq<WorkerState>,
    /// Whether shutdown has begun.
    pub closing: bool,
}

/// What can happen to a pool. Each event is atomic: the pool's lock is held for it.
pub enum PoolEvent<J> {
    /// A job is submitted.
    Execute(J),
    /// The pool's owner begins to dispose of it.
    Shutdown,
    /// The worker with this index asks for work.
    Poll(usize),
}

/// The number of workers that have not exited.
pub open spec fn live_workers(workers: Seq<WorkerState>) -> nat
    decreases workers.len(),
{
    if workers.len() == 0 {
        0
    } else {
        live_workers(workers.drop_last()) + if workers.last() == WorkerState::Exited {
            0nat
        } else {
            1nat
        }
    }
}

/// `count` terminate tokens.
pub open spec fn terminators<J>(count: nat) -> Seq<Message<J>> {
    Seq::new(count, |i: int| Message::Terminate)
}

/// The queue entries that carry the given jobs, in their order.
pub open spec fn runs<J>(jobs: Seq<J>) -> Seq<Message<J>> {
    Seq::new(jobs.len(), |i: int| Message::Run(jobs[i]))
}

/// A new pool with `size` workers: nothing queued, nobody gone.
pub open spec fn initial<J>(size: nat) -> PoolState<J> {
    PoolState {
        queue: Seq::empty(),
        workers: Seq::new(size, |i: int| WorkerState::Idle),
        closing: false,
    }
}

/// Submitting a job puts it at the back of the queue. Once every worker has exited
/// nobody reads the queue any more, and the job is dropped without a trace.
pub open spec fn after_execute<J>(s: PoolState<J>, job: J) -> PoolState<J> {
    if live_workers(s.workers) == 0 {
        s
    } else {
        PoolState { queue: s.queue.push(Message::Run(job)), ..s }
    }
}

/// Shutdown puts one terminate token per worker behind everything queued so far. It
/// happens once: a second shutdown changes nothing.
pub open spec fn after_shutdown<J>(s: PoolState<J>) -> PoolState<J> {
    if s.closing {
        s
    } else if live_workers(s.workers) == 0 {
        PoolState { closing: true, ..s }
    } else {
        PoolState { queue: s.queue + terminators(s.workers.len()), closing: true, ..s }
    }
}

/// Whether `worker` names a worker that has not exited.
pub open spec fn can_poll<J>(s: PoolState<J>, worker: int) -> bool {
    0 <= worker < s.workers.len() && s.workers[worker] != WorkerState::Exited
}

/// What a worker that asks for work is told: the oldest entry decides. An index that
/// names no worker, or one that has exited, is told to exit.
pub open spec fn assignment<J>(s: PoolState<J>, worker: int) -> Assignment<J> {
    if !can_poll(s, worker) {
        Assignment::Exit
    } else if s.queue.len() == 0 {
        Assignment::Wait
    } else {
        match s.queue[0] {
            Message::Run(job) => Assignment::Run(job),
            Message::Terminate => Assignment::Exit,
        }
    }
}

/// The pool after a worker asked for work: the oldest entry, if there is one, has left
/// the queue, and the worker is busy with it, or has exited, or waits.
pub open spec fn after_poll<J>(s: PoolState<J>, worker: int) -> PoolState<J> {
    if !can_poll(s, worker) {
        s
    } else if s.queue.len() == 0 {
        PoolState { workers: s.workers.update(worker, WorkerState::Idle), ..s }
    } else {
        let state = match s.queue[0] {
            Message::Run(_) => WorkerState::Busy,
            Message::Terminate => WorkerState::Exited,
        };
        PoolState { queue: s.queue.drop_first(), workers: s.workers.update(worker, state), ..s }
    }
}

/// The pool after one event.
pub open spec fn step<J>(s: PoolState<J>, event: PoolEvent<J>) -> PoolState<J> {
    match event {
        PoolEvent::Execute(job) => after_execute(s, job),
        PoolEvent::Shutdown => after_shutdown(s),
        PoolEvent::Poll(worker) => after_poll(s, worker as int),
    }
}

/// A pool of `size` workers after the given events, in the order in which they took
/// the lock. Every interleaving of submitters, workers and the owner is one such sequence.
pub open spec fn pool_after<J>(size: nat, events: Seq<PoolEvent<J>>) -> PoolState<J>
    decreases events.len(),
{
    if events.len() == 0 {
        initial(size)
    } else {
        step(pool_after(size, events.drop_last()), events.last())
    }
}

/// The jobs submitted before shutdown began, in the order of submission.
pub open spec fn submitted<J>(size: nat, events: Seq<PoolEvent<J>>) -> Seq<J>
    decreases events.len(),
{
    if events.len() == 0 {
        Seq::empty()
    } else {
        let earlier = events.drop_last();
        match events.last() {
            PoolEvent::Execute(job) => if !pool_after(size, earlier).closing {
                submitted(size, earlier).push(job)
            } else {
                submitted(size, earlier)
            },
            _ => submitted(size, earlier),
        }
    }
}

/// The jobs submitted after shutdown began while a worker was still there to read
/// the queue, in the order of submission.
pub open spec fn submitted_late<J>(size: nat, events: Seq<PoolEvent<J>>) -> Seq<J>
    decreases events.len(),
{
    if events.len() == 0 {
        Seq::empty()
    } else {
        let earlier = events.drop_last();
        let before = pool_after(size, earlier);
        match events.last() {
            PoolEvent::Execute(job) => if before.closing && live_workers(before.workers) > 0 {
                submitted_late(size, earlier).push(job)
            } else {
                submitted_late(size, earlier)
            },
            _ => submitted_late(size, earlier),
        }
    }
}

/// The jobs handed to workers, in the order in which they were handed out.
pub open spec fn dispatched<J>(size: nat, events: Seq<PoolEvent<J>>) -> Seq<J>
    decreases events.len(),
{
    if events.len() == 0 {
        Seq::empty()
    } else {
        let earlier = events.drop_last();
        match events.last() {
            PoolEvent::Poll(worker) => match assignment(
                pool_after(size, earlier),
                worker as int,
            ) {
                Assignment::Run(job) => dispatched(size, earlier).push(job),
                _ => dispatched(size, earlier),
            },
            _ => dispatched(size, earlier),
        }
    }
}

/// The number of terminate tokens that a pool in state `s` still holds: one for each
/// worker that has not exited, once shutdown has begun.
pub open spec fn tokens_left<J>(s: PoolState<J>) -> nat {
    if s.closing {
        live_workers(s.workers)
    } else {
        0
    }
}

/// The whole account of a pool after `events`: the jobs handed out are the first of
/// those submitted before shutdown; the queue holds the rest of them, then the
/// terminate tokens that are left, then the jobs that came too late; no worker exits
/// before shutdown, nor while a job submitted before shutdown is still queued.
pub open spec fn accounted<J>(size: nat, events: Seq<PoolEvent<J>>) -> bool {
    let s = pool_after(size, events);
    let done = dispatched(size, events);
    let early = submitted(size, events);
    let late = submitted_late(size, events);
    &&& s.workers.len() == size
    &&& done.len() <= early.len()
    &&& done == early.take(done.len() as int)
    &&& s.queue == runs(early.skip(done.len() as int)) + terminators(tokens_left(s)) + runs(late)
    &&& !s.closing ==> late.len() == 0 && live_workers(s.workers) == size
    &&& s.closing && live_workers(s.workers) < size ==> done.len() == early.len()
}

proof fn live_workers_bounded(workers: Seq<WorkerState>)
    ensures
        live_workers(workers) <= workers.len(),
    decreases workers.len(),
{
    if workers.len() > 0 {
        live_workers_bounded(workers.drop_last());
    }
}

proof fn idle_workers_are_live(size: nat)
    ensures
        live_workers(Seq::new(size, |i: int| WorkerState::Idle)) == size,
    decreases size,
{
    if size > 0 {
        let all = Seq::new(size, |i: int| WorkerState::Idle);
        idle_workers_are_live((size - 1) as nat);
        assert(all.drop_last() =~= Seq::new((size - 1) as nat, |i: int| WorkerState::Idle));
    }
}

proof fn a_pollable_worker_is_live(workers: Seq<WorkerState>, worker: int)
    requires
        0 <= worker < workers.len(),
        workers[worker] != WorkerState::Exited,
    ensures
        live_workers(workers) >= 1,
    decreases workers.len(),
{
    if worker < workers.len() - 1 {
        a_pollable_worker_is_live(workers.drop_last(), worker);
    }
}

proof fn live_workers_after_update(workers: Seq<WorkerState>, worker: int, state: WorkerState)
    requires
        0 <= worker < workers.len(),
    ensures
        live_workers(workers.update(worker, state)) + (if workers[worker] == WorkerState::Exited {
            0nat
        } else {
            1nat
        }) == live_workers(workers) + (if state == WorkerState::Exited {
            0nat
        } else {
            1nat
        }),
    decreases workers.len(),
{
    let updated = workers.update(worker, state);
    if worker == workers.len() - 1 {
        assert(updated.drop_last() =~= workers.drop_last());
    } else {
        live_workers_after_update(workers.drop_last(), worker, state);
        assert(updated.drop_last() =~= workers.drop_last().update(worker, state));
    }
}

/// The account holds after every sequence of events on a pool with at least one worker.
pub proof fn every_interleaving_is_accounted<J>(size: nat, events: Seq<PoolEvent<J>>)
    requires
        size >= 1,
    ensures
        accounted(size, events),
    decreases events.len(),
{
    if events.len() == 0 {
        idle_workers_are_live(size);
        let s = pool_after::<J>(size, events);
        assert(s.queue =~= runs::<J>(Seq::empty().skip(0)) + terminators(0) + runs(Seq::empty()));
        assert(dispatched(size, events) =~= submitted(size, events).take(0));
    } else {
        let earlier = events.drop_last();
        every_interleaving_is_accounted(size, earlier);
        let before = pool_after(size, earlier);
        let after = pool_after(size, events);
        let done = dispatched(size, earlier);
        let early = submitted(size, earlier);
        let late = submitted_late(size, earlier);
        let rest = early.skip(done.len() as int);
        live_workers_bounded(before.workers);
        match events.last() {
            PoolEvent::Execute(job) => {
                if !before.closing {
                    assert(after.queue == before.queue.push(Message::Run(job)));
                    assert(early.push(job).skip(done.len() as int) =~= rest.push(job));
                    assert(after.queue =~= runs(rest.push(job)) + terminators(0) + runs(late));
                    assert(done =~= early.push(job).take(done.len() as int));
                } else if live_workers(before.workers) > 0 {
                    assert(after.queue =~= runs(rest) + terminators(tokens_left(after)) + runs(
                        late.push(job),
                    ));
                }
            },
            PoolEvent::Shutdown => {
                if !before.closing {
                    assert(after.queue =~= runs(rest) + terminators(tokens_left(after)) + runs(
                        late,
                    ));
                }
            },
            PoolEvent::Poll(index) => {
                let worker = index as int;
                if can_poll(before, worker) {
                    a_pollable_worker_is_live(before.workers, worker);
                    if before.queue.len() == 0 {
                        live_workers_after_update(before.workers, worker, WorkerState::Idle);
                    } else if rest.len() > 0 {
                        let job = rest[0];
                        assert(before.queue[0] == runs(rest)[0]);
                        live_workers_after_update(before.workers, worker, WorkerState::Busy);
                        assert(dispatched(size, events) == done.push(job));
                        assert(done.push(job) =~= early.take(done.len() as int + 1));
                        assert(early.skip(done.len() as int + 1) =~= rest.drop_first());
                        assert(after.queue =~= runs(rest.drop_first()) + terminators(
                            tokens_left(after),
                        ) + runs(late));
                    } else {
                        assert(tokens_left(before) > 0) by {
                            if tokens_left(before) == 0 {
                                assert(before.queue =~= runs(late));
                            }
                        }
                        assert(before.queue[0] == terminators::<J>(tokens_left(before))[0]);
                        live_workers_after_update(before.workers, worker, WorkerState::Exited);
                        assert(after.queue =~= runs(rest) + terminators(tokens_left(after)) + runs(
                            late,
                        ));
                    }
                }
            },
        }
    }
}

/// Whatever the interleaving, no job is handed out twice, none is invented and none is
/// overtaken: the jobs handed out so far are exactly the first of those submitted
/// before shutdown, in the order of submission, and the ones not yet handed out are
/// still at the front of the queue.
pub proof fn jobs_are_dispatched_once_in_order<J>(size: nat, events: Seq<PoolEvent<J>>)
    requires
        size >= 1,
    ensures
        dispatched(size, events).is_prefix_of(submitted(size, events)),
        runs(submitted(size, events).skip(dispatched(size, events).len() as int)).is_prefix_of(
            pool_after(size, events).queue,
        ),
{
    every_interleaving_is_accounted(size, events);
    let done = dispatched(size, events);
    let early = submitted(size, events);
    assert(done.is_prefix_of(early)) by {
        assert(done =~= early.subrange(0, done.len() as int));
    }
    let s = pool_after(size, events);
    let waiting = runs(early.skip(done.len() as int));
    assert(waiting =~= s.queue.subrange(0, waiting.len() as int));
}

/// Once shutdown has begun and every worker has exited, every job that was submitted
/// before shutdown has been handed to a worker, exactly once and in order, and that
/// worker has come back from it: no worker is busy.
pub proof fn disposal_drains_the_pool<J>(size: nat, events: Seq<PoolEvent<J>>)
    requires
        size >= 1,
        pool_after(size, events).closing,
        live_workers(pool_after(size, events).workers) == 0,
    ensures
        dispatched(size, events) == submitted(size, events),
        forall|w: int|
            0 <= w < size ==> #[trigger] pool_after(size, events).workers[w]
                == WorkerState::Exited,
{
    every_interleaving_is_accounted(size, events);
    let done = dispatched(size, events);
    let early = submitted(size, events);
    assert(done =~= early);
    let s = pool_after(size, events);
    assert forall|w: int| 0 <= w < size implies #[trigger] s.workers[w]
        == WorkerState::Exited by {
        if s.workers[w] != WorkerState::Exited {
            a_pollable_worker_is_live(s.workers, w);
        }
    }
}

/// No worker exits before shutdown has begun, so until then no submitted job is dropped.
pub proof fn workers_stay_until_shutdown<J>(size: nat, events: Seq<PoolEvent<J>>)
    requires
        size >= 1,
        !pool_after(size, events).closing,
    ensures
        live_workers(pool_after(size, events).workers) == size,
        forall|job: J| #[trigger]
            after_execute(pool_after(size, events), job).queue == pool_after(
                size,
                events,
            ).queue.push(Message::Run(job)),
{
    every_interleaving_is_accounted(size, events);
}

/// Once shutdown has begun, a worker that has not exited never finds the queue
/// empty: it is given a job that was queued ahead of its token, or it is told to exit.
/// Each answer shortens the queue by one, so every worker exits after finitely many.
pub proof fn no_worker_waits_after_shutdown<J>(size: nat, events: Seq<PoolEvent<J>>, worker: int)
    requires
        size >= 1,
        pool_after(size, events).closing,
        can_poll(pool_after(size, events), worker),
    ensures
        !(assignment(pool_after(size, events), worker) is Wait),
        after_poll(pool_after(size, events), worker).queue.len() + 1 == pool_after(
            size,
            events,
        ).queue.len(),
{
    every_interleaving_is_accounted(size, events);
    let s = pool_after(size, events);
    a_pollable_worker_is_live(s.workers, worker);
    assert(terminators::<J>(tokens_left(s)).len() >= 1);
}

/// A fixed set of workers that share one queue of jobs.
pub struct ThreadPool<J> {
    queue: VecDeque<Message<J>>,
    workers: Vec<WorkerState>,
    closing: bool,
}

impl<J> View for ThreadPool<J> {
    type V = PoolState<J>;

    closed spec fn view(&self) -> PoolState<J> {
        PoolState { queue: self.queue@, workers: self.workers@, closing: self.closing }
    }
}

impl<J> ThreadPool<J> {
    /// A pool of `size` workers with an empty queue. A pool needs at least one worker.
    pub fn new(size: usize) -> (pool: Self)
        requires
            size > 0,
        ensures
            pool@ == initial::<J>(size as nat),
    {
        let mut workers: Vec<WorkerState> = Vec::new();
        let mut made: usize = 0;
        while made < size
            invariant
                made <= size,
                workers@ == Seq::new(made as nat, |i: int| WorkerState::Idle),
            decreases size - made,
        {
            workers.push(WorkerState::Idle);
            made += 1;
            assert(workers@ =~= Seq::new(made as nat, |i: int| WorkerState::Idle));
        }
        ThreadPool { queue: VecDeque::new(), workers, closing: false }
    }

    /// The number of workers the pool was made with.
    pub fn size(&self) -> (size: usize)
        ensures
            size == self@.workers.len(),
    {
        self.workers.len()
    }

    /// The number of workers that have not exited. Disposal is complete when it is zero.
    pub fn live_workers(&self) -> (live: usize)
        ensures
            live == live_workers(self@.workers),
    {
        let mut live: usize = 0;
        let mut seen: usize = 0;
        while seen < self.workers.len()
            invariant
                seen <= self.workers.len(),
                live <= seen,
                live == live_workers(self.workers@.take(seen as int)),
            decreases self.workers.len() - seen,
        {
            assert(self.workers@.take(seen + 1).drop_last() =~= self.workers@.take(seen as int));
            match self.workers[seen] {
                WorkerState::Exited => {},
                _ => {
                    live += 1;
                },
            }
            seen += 1;
        }
        assert(self.workers@.take(seen as int) =~= self.workers@);
        live
    }

    /// The number of entries in the queue, jobs and terminate tokens alike.
    pub fn queued(&self) -> (queued: usize)
        ensures
            queued == self@.queue.len(),
    {
        self.queue.len()
    }

    /// The state of a worker, or `None` where the index names none.
    pub fn worker_state(&self, worker: usize) -> (state: Option<WorkerState>)
        ensures
            state == if worker < self@.workers.len() {
                Some(self@.workers[worker as int])
            } else {
                None
            },
    {
        if worker < self.workers.len() {
            Some(self.workers[worker])
        } else {
            None
        }
    }

    /// Submits a job. It never blocks and never fails: a job that arrives after every
    /// worker has exited is dropped.
    pub fn execute(&mut self, job: J)
        ensures
            final(self)@ == after_execute(old(self)@, job),
    {
        if self.live_workers() > 0 {
            self.queue.push_back(Message::Run(job));
        }
    }

    /// Begins disposal: queues one terminate token per worker. The owner then waits
    /// until every worker has exited.
    pub fn shutdown(&mut self)
        ensures
            final(self)@ == after_shutdown(old(self)@),
    {
        if self.closing {
            return ;
        }
        self.closing = true;
        if self.live_workers() == 0 {
            return ;
        }
        let mut sent: usize = 0;
        while sent < self.workers.len()
            invariant
                sent <= self.workers.len(),
                self.workers@ == old(self).workers@,
                self.closing,
                self.queue@ == old(self).queue@ + terminators::<J>(sent as nat),
            decreases self.workers.len() - sent,
        {
            self.queue.push_back(Message::Terminate);
            sent += 1;
            assert(self.queue@ =~= old(self).queue@ + terminators::<J>(sent as nat));
        }
    }

    /// Takes the oldest entry from the queue for the worker that asks. A worker asks
    /// when it starts, when it is woken from waiting, and when its job has returned.
    pub fn next_task(&mut self, worker: usize) -> (task: Assignment<J>)
        ensures
            task == assignment(old(self)@, worker as int),
            final(self)@ == after_poll(old(self)@, worker as int),
    {
        if worker >= self.workers.len() {
            return Assignment::Exit;
        }
        match self.workers[worker] {
            WorkerState::Exited => {
                return Assignment::Exit;
            },
            _ => {},
        }
        match self.queue.pop_front() {
            None => {
                self.workers.set(worker, WorkerState::Idle);
                Assignment::Wait
            },
            Some(Message::Run(job)) => {
                self.workers.set(worker, WorkerState::Busy);
                assert(self.queue@ =~= old(self).queue@.drop_first());
                Assignment::Run(job)
            },
            Some(Message::Terminate) => {
                self.workers.set(worker, WorkerState::Exited);
                assert(self.queue@ =~= old(self).queue@.drop_first());
                Assignment::Exit
            },
        }
    }
}

} // verus!
