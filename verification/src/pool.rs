//! The worker-pool dispatch model.
//!
//! A pool owns a fixed number of workers and an unbounded FIFO queue of
//! pending jobs, identified here by plain ids. Submitting a job never
//! blocks: it starts at once when a worker is free and queues otherwise.
//! When a busy worker finishes, it picks up the longest-waiting queued job.
//! The threads themselves, and the channel that carries the jobs to them,
//! live outside the library; this module pins down the dispatch decisions
//! they must make.

use vstd::prelude::*;
use vstd::multiset::Multiset;

verus! {

/// Abstract state of a pool: the fixed worker count, the ids of the jobs
/// the workers are executing (in the order they were started), and the ids
/// of the jobs waiting in the queue (in arrival order).
pub ghost struct PoolState {
    pub worker_count: nat,
    pub running: Seq<u64>,
    pub pending: Seq<u64>,
}

/// The pool's invariant: at least one worker, never more running jobs than
/// workers, and jobs wait in the queue only while every worker is busy.
pub open spec fn pool_inv(s: PoolState) -> bool {
    &&& s.worker_count >= 1
    &&& s.running.len() <= s.worker_count
    &&& s.pending.len() > 0 ==> s.running.len() == s.worker_count
}

/// Submitting one job: it starts at once when a worker is free, and joins
/// the back of the queue otherwise.
pub open spec fn spec_submit(s: PoolState, job: u64) -> PoolState {
    if s.running.len() < s.worker_count {
        PoolState { worker_count: s.worker_count, running: s.running.push(job), pending: s.pending }
    } else {
        PoolState { worker_count: s.worker_count, running: s.running, pending: s.pending.push(job) }
    }
}

/// Submitting a sequence of jobs, first to last.
pub open spec fn spec_submit_all(s: PoolState, jobs: Seq<u64>) -> PoolState
    decreases jobs.len(),
{
    if jobs.len() == 0 {
        s
    } else {
        spec_submit_all(spec_submit(s, jobs[0]), jobs.drop_first())
    }
}

/// A worker finishing the running job at position `i`: the job leaves the
/// running set, and when jobs are queued the queue's head starts at once on
/// the freed worker.
pub open spec fn spec_finish(s: PoolState, i: int) -> (PoolState, Option<u64>)
    recommends
        0 <= i < s.running.len(),
{
    if s.pending.len() > 0 {
        (
            PoolState {
                worker_count: s.worker_count,
                running: s.running.remove(i).push(s.pending[0]),
                pending: s.pending.drop_first(),
            },
            Some(s.pending[0]),
        )
    } else {
        (
            PoolState {
                worker_count: s.worker_count,
                running: s.running.remove(i),
                pending: s.pending,
            },
            None,
        )
    }
}

/// Submitting a job keeps the pool's invariant.
pub proof fn lemma_submit_preserves_inv(s: PoolState, job: u64)
    requires
        pool_inv(s),
    ensures
        pool_inv(spec_submit(s, job)),
{
}

/// A worker finishing a job keeps the pool's invariant.
pub proof fn lemma_finish_preserves_inv(s: PoolState, i: int)
    requires
        pool_inv(s),
        0 <= i < s.running.len(),
    ensures
        pool_inv(spec_finish(s, i).0),
{
}

/// Every job the pool holds, running or queued, as one multiset.
pub open spec fn all_jobs(s: PoolState) -> Multiset<u64> {
    s.running.to_multiset().add(s.pending.to_multiset())
}

/// Submitting puts the job into the pool exactly once, wherever it lands,
/// and touches no other job.
pub proof fn lemma_submit_adds_job_once(s: PoolState, job: u64)
    ensures
        all_jobs(spec_submit(s, job)) =~= all_jobs(s).insert(job),
{
    broadcast use vstd::seq_lib::group_to_multiset_ensures;

}

/// A finishing worker takes exactly its own job out of the pool. The job
/// it may start next merely moves from the queue to the worker, so no job
/// is ever duplicated onto two workers, and none is invented or lost.
pub proof fn lemma_finish_removes_one_job(s: PoolState, i: int)
    requires
        0 <= i < s.running.len(),
    ensures
        all_jobs(spec_finish(s, i).0) =~= all_jobs(s).remove(s.running[i]),
{
    broadcast use vstd::seq_lib::group_to_multiset_ensures;

    if s.pending.len() > 0 {
        assert(s.pending.drop_first() =~= s.pending.remove(0));
    }
}

/// While the pool has spare capacity for all of them, submitted jobs all
/// start immediately, in submission order, and none is queued.
pub proof fn lemma_submit_all_within_capacity(s: PoolState, jobs: Seq<u64>)
    requires
        pool_inv(s),
        s.pending.len() == 0,
        s.running.len() + jobs.len() <= s.worker_count,
    ensures
        spec_submit_all(s, jobs).worker_count == s.worker_count,
        spec_submit_all(s, jobs).running == s.running + jobs,
        spec_submit_all(s, jobs).pending == s.pending,
    decreases jobs.len(),
{
    if jobs.len() == 0 {
        assert(s.running + jobs =~= s.running);
    } else {
        let s1 = spec_submit(s, jobs[0]);
        lemma_submit_all_within_capacity(s1, jobs.drop_first());
        assert(s.running.push(jobs[0]) + jobs.drop_first() =~= s.running + jobs);
    }
}

/// While every worker is busy, submitted jobs are all queued, in submission
/// order, and no running job is disturbed.
pub proof fn lemma_submit_all_to_full_pool(s: PoolState, jobs: Seq<u64>)
    requires
        pool_inv(s),
        s.running.len() == s.worker_count,
    ensures
        spec_submit_all(s, jobs).worker_count == s.worker_count,
        spec_submit_all(s, jobs).running == s.running,
        spec_submit_all(s, jobs).pending == s.pending + jobs,
    decreases jobs.len(),
{
    if jobs.len() == 0 {
        assert(s.pending + jobs =~= s.pending);
    } else {
        let s1 = spec_submit(s, jobs[0]);
        lemma_submit_all_to_full_pool(s1, jobs.drop_first());
        assert(s.pending.push(jobs[0]) + jobs.drop_first() =~= s.pending + jobs);
    }
}

/// Submitting a concatenation is submitting the two parts in turn.
pub proof fn lemma_submit_all_split(s: PoolState, a: Seq<u64>, b: Seq<u64>)
    ensures
        spec_submit_all(s, a + b) == spec_submit_all(spec_submit_all(s, a), b),
    decreases a.len(),
{
    if a.len() == 0 {
        assert(a + b =~= b);
    } else {
        assert((a + b).drop_first() =~= a.drop_first() + b);
        lemma_submit_all_split(spec_submit(s, a[0]), a.drop_first(), b);
    }
}

/// Saturating an idle pool: the first `worker_count` submissions occupy all
/// workers, in submission order; every further submission waits in the
/// queue, also in submission order.
pub proof fn lemma_pool_saturation(s: PoolState, jobs: Seq<u64>)
    requires
        pool_inv(s),
        s.running.len() == 0,
        s.pending.len() == 0,
        jobs.len() >= s.worker_count,
    ensures
        spec_submit_all(s, jobs).running == jobs.take(s.worker_count as int),
        spec_submit_all(s, jobs).pending == jobs.skip(s.worker_count as int),
{
    let a = jobs.take(s.worker_count as int);
    let b = jobs.skip(s.worker_count as int);
    assert(jobs =~= a + b);
    lemma_submit_all_split(s, a, b);
    lemma_submit_all_within_capacity(s, a);
    let t = spec_submit_all(s, a);
    assert(t.running =~= a);
    lemma_submit_all_to_full_pool(t, b);
    assert(spec_submit_all(s, jobs).pending =~= b);
}

/// When every worker is busy and jobs are waiting, a finishing worker picks
/// up exactly the job that has waited longest.
pub proof fn lemma_finish_starts_queue_head(s: PoolState, i: int)
    requires
        pool_inv(s),
        0 <= i < s.running.len(),
        s.pending.len() > 0,
    ensures
        spec_finish(s, i).1 == Some(s.pending[0]),
        spec_finish(s, i).0.pending == s.pending.drop_first(),
        spec_finish(s, i).0.running == s.running.remove(i).push(s.pending[0]),
{
}

/// Submitting one job more than there are workers to an idle pool makes
/// every worker busy, in submission order, and leaves exactly the last job
/// waiting; it starts the moment any worker finishes, and not before.
pub proof fn lemma_overfull_by_one_starts_last_job_on_first_finish(
    s: PoolState,
    jobs: Seq<u64>,
    i: int,
)
    requires
        pool_inv(s),
        s.running.len() == 0,
        s.pending.len() == 0,
        jobs.len() == s.worker_count + 1,
        0 <= i < s.worker_count,
    ensures
        spec_submit_all(s, jobs).running == jobs.take(s.worker_count as int),
        spec_submit_all(s, jobs).pending == seq![jobs.last()],
        spec_finish(spec_submit_all(s, jobs), i).1 == Some(jobs.last()),
        spec_finish(spec_submit_all(s, jobs), i).0.pending == Seq::<u64>::empty(),
{
    lemma_pool_saturation(s, jobs);
    let t = spec_submit_all(s, jobs);
    assert(t.pending =~= seq![jobs.last()]);
    assert(t.pending.drop_first() =~= Seq::<u64>::empty());
}

/// With a free worker, a submitted job starts at once: it is never queued
/// behind the jobs that busy workers are still executing.
pub proof fn lemma_free_worker_starts_job(s: PoolState, job: u64)
    requires
        pool_inv(s),
        s.running.len() < s.worker_count,
    ensures
        spec_submit(s, job).running == s.running.push(job),
        spec_submit(s, job).pending == s.pending,
{
}

/// A fixed pool of workers and its FIFO job queue.
pub struct ThreadPool {
    worker_count: usize,
    running: Vec<u64>,
    pending: Vec<u64>,
}

impl View for ThreadPool {
    type V = PoolState;

    closed spec fn view(&self) -> PoolState {
        PoolState {
            worker_count: self.worker_count as nat,
            running: self.running@,
            pending: self.pending@,
        }
    }
}

impl ThreadPool {
    /// Creates an idle pool of `size` workers. A pool of zero workers could
    /// never run anything, so construction demands at least one.
    pub fn new(size: usize) -> (pool: ThreadPool)
        requires
            size >= 1,
        ensures
            pool@.worker_count == size,
            pool@.running == Seq::<u64>::empty(),
            pool@.pending == Seq::<u64>::empty(),
            pool_inv(pool@),
    {
        ThreadPool { worker_count: size, running: Vec::new(), pending: Vec::new() }
    }

    /// Submits a job. The caller never blocks: the job either starts at
    /// once on a free worker or joins the back of the unbounded queue.
    /// Returns whether it started at once.
    pub fn execute(&mut self, job: u64) -> (started: bool)
        requires
            pool_inv(old(self)@),
        ensures
            final(self)@ == spec_submit(old(self)@, job),
            pool_inv(final(self)@),
            started == (old(self)@.running.len() < old(self)@.worker_count),
    {
        if self.running.len() < self.worker_count {
            self.running.push(job);
            true
        } else {
            self.pending.push(job);
            false
        }
    }

    /// Records that the worker executing `running_jobs()[i]` finished, and
    /// returns the queued job it starts next, if any is waiting.
    pub fn finish_at(&mut self, i: usize) -> (started: Option<u64>)
        requires
            pool_inv(old(self)@),
            i < old(self)@.running.len(),
        ensures
            final(self)@ == spec_finish(old(self)@, i as int).0,
            started == spec_finish(old(self)@, i as int).1,
            pool_inv(final(self)@),
    {
        self.running.remove(i);
        if self.pending.len() > 0 {
            let next = self.pending.remove(0);
            self.running.push(next);
            proof {
                assert(old(self)@.pending.drop_first() =~= self@.pending);
            }
            Some(next)
        } else {
            None
        }
    }

    /// The fixed number of workers.
    pub fn worker_count(&self) -> (r: usize)
        ensures
            r == self@.worker_count,
    {
        self.worker_count
    }

    /// Ids of the jobs the workers are executing, in start order.
    pub fn running_jobs(&self) -> (r: &Vec<u64>)
        ensures
            r@ == self@.running,
    {
        &self.running
    }

    /// Ids of the jobs waiting in the queue, in arrival order.
    pub fn pending_jobs(&self) -> (r: &Vec<u64>)
        ensures
            r@ == self@.pending,
    {
        &self.pending
    }
}

} // verus!
