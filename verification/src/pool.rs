//! The worker pool: a fixed positive number of workers, the work queue they
//! drain, and the per-job reports they produce. The pool model here makes the
//! decisions — construction guard, submission, closing, handing out work,
//! recording reports; the caller owns the execution contexts that drive it
//! and must serialize each call on the shared pool.

use vstd::prelude::*;
use crate::command::Outcome;
use crate::job::Job;
use crate::queue::{indices_of, TakeResult, WorkQueue};

verus! {

/// The construction error: a pool cannot be created without workers.
#[derive(Debug)]
pub enum PoolCreationError {
    /// A pool with zero workers was requested.
    ZeroWorkers,
}

impl PoolCreationError {
    /// The error text, as a plain string.
    pub fn message(&self) -> (r: String)
        ensures
            r@ == "ThreadPool size must be greater than 0"@,
    {
        "ThreadPool size must be greater than 0".to_owned()
    }
}

/// How one job ended, as reported by the worker that ran it. Every ending is
/// per-job and recovered locally: none of them affects any other job.
#[derive(Debug)]
pub enum JobStatus {
    /// The template expanded to a blank command line; nothing was run.
    SkippedEmptyCommand,
    /// A command was run (or at least spawned) and this is its outcome.
    Ran(Outcome),
}

/// The diagnostic record of one completed job: which job it was, and how it
/// ended.
#[derive(Debug)]
pub struct JobReport {
    /// The job's stable 1-based index.
    pub index: usize,
    /// The job's input line.
    pub input: String,
    /// How the job ended.
    pub status: JobStatus,
}

/// A fixed-size worker pool: the worker count chosen at construction, the
/// work queue, and the reports recorded so far.
pub struct ThreadPool {
    workers: usize,
    queue: WorkQueue,
    reports: Vec<JobReport>,
}

impl ThreadPool {
    /// The number of workers, fixed at construction.
    pub closed spec fn worker_count(self) -> nat {
        self.workers as nat
    }

    /// Every job ever submitted, in submission order.
    pub closed spec fn submitted(self) -> Seq<Job> {
        self.queue.submitted()
    }

    /// The jobs still pending in the queue.
    pub closed spec fn pending(self) -> Seq<Job> {
        self.queue.pending()
    }

    /// Every job handed out to some worker.
    pub closed spec fn taken(self) -> Seq<Job> {
        self.queue.taken()
    }

    /// Whether the pool has stopped accepting submissions.
    pub closed spec fn is_closed(self) -> bool {
        self.queue.is_closed()
    }

    /// The reports recorded so far, in recording order.
    pub closed spec fn reports(self) -> Seq<JobReport> {
        self.reports@
    }

    /// Conservation, inherited from the queue: what was submitted is exactly
    /// what was handed out followed by what is still pending.
    pub open spec fn conserved(self) -> bool {
        self.submitted() == self.taken() + self.pending()
    }

    /// Construction guard: requesting a pool with zero workers fails with a
    /// construction error and builds nothing; any positive count yields a
    /// fresh pool with that many workers, an open empty queue and no reports.
    pub fn new(size: usize) -> (r: Result<ThreadPool, PoolCreationError>)
        ensures
            r is Ok <==> size >= 1,
            r matches Ok(p) ==> {
                &&& p.conserved()
                &&& p.worker_count() == size
                &&& p.submitted() == Seq::<Job>::empty()
                &&& p.pending() == Seq::<Job>::empty()
                &&& p.taken() == Seq::<Job>::empty()
                &&& p.reports() == Seq::<JobReport>::empty()
                &&& !p.is_closed()
            },
            r matches Err(e) ==> e is ZeroWorkers,
    {
        if size == 0 {
            return Err(PoolCreationError::ZeroWorkers);
        }
        Ok(ThreadPool { workers: size, queue: WorkQueue::new(), reports: Vec::new() })
    }

    /// The worker count, for the caller that starts the execution contexts.
    pub fn workers(&self) -> (r: usize)
        ensures
            r == self.worker_count(),
    {
        self.workers
    }

    /// Whether the pool still accepts submissions.
    pub fn accepting(&self) -> (r: bool)
        ensures
            r == !self.is_closed(),
    {
        !self.queue.is_closed_now()
    }

    /// Submit one job for eventual execution; allowed any time before the
    /// pool is told that no more work will come.
    pub fn submit(&mut self, job: Job)
        requires
            old(self).conserved(),
            !old(self).is_closed(),
        ensures
            final(self).conserved(),
            final(self).pending() == old(self).pending().push(job),
            final(self).submitted() == old(self).submitted().push(job),
            final(self).taken() == old(self).taken(),
            final(self).reports() == old(self).reports(),
            final(self).worker_count() == old(self).worker_count(),
            !final(self).is_closed(),
    {
        self.queue.push(job);
    }

    /// Signal that no more jobs will be submitted. Pending work, the history
    /// and the reports stay as they are.
    pub fn close(&mut self)
        requires
            old(self).conserved(),
        ensures
            final(self).conserved(),
            final(self).is_closed(),
            final(self).pending() == old(self).pending(),
            final(self).submitted() == old(self).submitted(),
            final(self).taken() == old(self).taken(),
            final(self).reports() == old(self).reports(),
            final(self).worker_count() == old(self).worker_count(),
    {
        self.queue.close();
    }

    /// One worker asks for work: the head job if one is pending (handed to
    /// that worker alone), otherwise the signal to wait (still open) or to
    /// terminate (closed and drained).
    pub fn take(&mut self) -> (r: TakeResult)
        requires
            old(self).conserved(),
        ensures
            final(self).conserved(),
            final(self).submitted() == old(self).submitted(),
            final(self).is_closed() == old(self).is_closed(),
            final(self).reports() == old(self).reports(),
            final(self).worker_count() == old(self).worker_count(),
            old(self).pending().len() > 0 ==> (r matches TakeResult::Taken(job)
                && job == old(self).pending()[0]
                && final(self).pending() == old(self).pending().skip(1)
                && final(self).taken() == old(self).taken().push(job)),
            old(self).pending().len() == 0 ==> final(self).pending() == old(self).pending()
                && final(self).taken() == old(self).taken(),
            r is Finished <==> old(self).pending().len() == 0 && old(self).is_closed(),
            r is Waiting <==> old(self).pending().len() == 0 && !old(self).is_closed(),
    {
        self.queue.take()
    }

    /// Record the report of one completed job.
    pub fn record(&mut self, report: JobReport)
        requires
            old(self).conserved(),
        ensures
            final(self).conserved(),
            final(self).reports() == old(self).reports().push(report),
            final(self).pending() == old(self).pending(),
            final(self).submitted() == old(self).submitted(),
            final(self).taken() == old(self).taken(),
            final(self).is_closed() == old(self).is_closed(),
            final(self).worker_count() == old(self).worker_count(),
    {
        self.reports.push(report);
    }

    /// The reports recorded so far, for the caller that prints diagnostics.
    pub fn report_log(&self) -> (r: &Vec<JobReport>)
        ensures
            r@ == self.reports(),
    {
        &self.reports
    }

    /// Whether shutdown has completed on the queue side: closed, and nothing
    /// left pending.
    pub fn is_drained(&self) -> (r: bool)
        ensures
            r == (self.is_closed() && self.pending().len() == 0),
    {
        self.queue.is_closed_now() && self.queue.pending_len() == 0
    }

    /// Exactly-once processing: once the pool's queue has drained, the jobs
    /// handed out to workers are exactly the jobs submitted, in submission
    /// order — one execution per job, whatever the worker count.
    pub proof fn lemma_drained_exactly_once(&self)
        requires
            self.conserved(),
            self.pending().len() == 0,
        ensures
            self.taken() == self.submitted(),
    {
        assert(self.taken() + self.pending() =~= self.taken());
    }

    /// Queue drains fully: workers are told to finish only once the pool is
    /// closed with nothing pending, and by then every submitted job has been
    /// handed out to some worker.
    pub proof fn lemma_closed_and_drained(&self)
        requires
            self.conserved(),
            self.is_closed(),
            self.pending().len() == 0,
        ensures
            self.taken() == self.submitted(),
    {
        self.lemma_drained_exactly_once();
    }

    /// No duplication, no loss: when the submitted jobs were numbered 1..=n
    /// and the queue has drained, the multiset of handed-out job indices is
    /// exactly {1, ..., n}.
    pub proof fn lemma_no_duplication_no_loss(&self, n: int)
        requires
            self.conserved(),
            self.pending().len() == 0,
            self.submitted().len() == n,
            forall|k: int| 0 <= k < n ==> self.submitted()[k].index == k + 1,
        ensures
            indices_of(self.taken()).to_multiset() == Seq::new(n as nat, |k: int| k + 1)
                .to_multiset(),
    {
        self.lemma_drained_exactly_once();
        assert(indices_of(self.taken()) =~= Seq::new(n as nat, |k: int| k + 1));
    }
}

} // verus!
