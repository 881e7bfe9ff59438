//! The work queue: a FIFO of pending jobs plus a closed flag, with the
//! history of what was submitted and what was handed out. Its invariant is
//! conservation: the submitted jobs are exactly the handed-out jobs followed
//! by the pending ones, so no job is ever lost, duplicated or reordered by
//! the queue itself. One `take` hands its job to one caller alone; a caller
//! with concurrent workers must make each call atomic — one exclusive region
//! around the call, never around job execution.

use vstd::prelude::*;
use crate::job::Job;

verus! {

/// What a worker gets when it asks the queue for work.
#[derive(Debug)]
pub enum TakeResult {
    /// The head job, removed from the queue and handed to this caller alone.
    Taken(Job),
    /// Nothing is pending but the queue is still open: more work may come,
    /// the worker should wait and ask again.
    Waiting,
    /// The queue is closed and drained: the worker terminates.
    Finished,
}

/// The ordered pending jobs and the closed flag, together with the history
/// of every job submitted and every job handed out.
pub struct WorkQueue {
    jobs: Vec<Job>,
    closed: bool,
    all: Ghost<Seq<Job>>,
    handed: Ghost<Seq<Job>>,
}

/// The indices of a sequence of jobs, in order.
pub open spec fn indices_of(jobs: Seq<Job>) -> Seq<int> {
    jobs.map(|_i: int, j: Job| j.index as int)
}

impl WorkQueue {
    /// The jobs still pending, head first: the order they will be handed out in.
    pub closed spec fn pending(self) -> Seq<Job> {
        self.jobs@
    }

    /// Every job ever submitted, in submission order.
    pub closed spec fn submitted(self) -> Seq<Job> {
        self.all@
    }

    /// Every job handed out to some worker, in hand-out order.
    pub closed spec fn taken(self) -> Seq<Job> {
        self.handed@
    }

    /// Whether the queue accepts no more submissions.
    pub closed spec fn is_closed(self) -> bool {
        self.closed
    }

    /// Conservation: what was submitted is exactly what was handed out
    /// followed by what is still pending.
    pub open spec fn conserved(self) -> bool {
        self.submitted() == self.taken() + self.pending()
    }

    /// A fresh queue: open, with nothing pending and no history.
    pub fn new() -> (q: WorkQueue)
        ensures
            q.conserved(),
            q.pending() == Seq::<Job>::empty(),
            q.submitted() == Seq::<Job>::empty(),
            q.taken() == Seq::<Job>::empty(),
            !q.is_closed(),
    {
        let jobs: Vec<Job> = Vec::new();
        proof {
            assert(Seq::<Job>::empty() =~= Seq::<Job>::empty() + jobs@);
        }
        WorkQueue { jobs, closed: false, all: Ghost(Seq::empty()), handed: Ghost(Seq::empty()) }
    }

    /// Submit one job: it joins the tail of the pending jobs.
    pub fn push(&mut self, job: Job)
        requires
            old(self).conserved(),
            !old(self).is_closed(),
        ensures
            final(self).conserved(),
            final(self).pending() == old(self).pending().push(job),
            final(self).submitted() == old(self).submitted().push(job),
            final(self).taken() == old(self).taken(),
            !final(self).is_closed(),
    {
        self.all = Ghost(self.all@.push(job));
        self.jobs.push(job);
        proof {
            assert(self.all@ =~= self.handed@ + self.jobs@);
        }
    }

    /// Close the queue: no more submissions; pending work and history stay.
    pub fn close(&mut self)
        requires
            old(self).conserved(),
        ensures
            final(self).conserved(),
            final(self).is_closed(),
            final(self).pending() == old(self).pending(),
            final(self).submitted() == old(self).submitted(),
            final(self).taken() == old(self).taken(),
    {
        self.closed = true;
    }

    /// Ask for work. When a job is pending, the head is removed and handed to
    /// this caller alone, exactly once. When nothing is pending, the queue is
    /// left as it is and the answer says whether to wait (still open) or to
    /// terminate (closed and drained).
    pub fn take(&mut self) -> (r: TakeResult)
        requires
            old(self).conserved(),
        ensures
            final(self).conserved(),
            final(self).submitted() == old(self).submitted(),
            final(self).is_closed() == old(self).is_closed(),
            old(self).pending().len() > 0 ==> (r matches TakeResult::Taken(job)
                && job == old(self).pending()[0]
                && final(self).pending() == old(self).pending().skip(1)
                && final(self).taken() == old(self).taken().push(job)),
            old(self).pending().len() == 0 ==> final(self).pending() == old(self).pending()
                && final(self).taken() == old(self).taken(),
            r is Finished <==> old(self).pending().len() == 0 && old(self).is_closed(),
            r is Waiting <==> old(self).pending().len() == 0 && !old(self).is_closed(),
    {
        if self.jobs.len() > 0 {
            let ghost jobs0 = self.jobs@;
            let job = self.jobs.remove(0);
            self.handed = Ghost(self.handed@.push(job));
            proof {
                assert(self.jobs@ =~= jobs0.skip(1));
                assert(self.all@ =~= self.handed@ + self.jobs@);
            }
            TakeResult::Taken(job)
        } else if self.closed {
            TakeResult::Finished
        } else {
            TakeResult::Waiting
        }
    }

    /// Whether the queue has been closed.
    pub fn is_closed_now(&self) -> (r: bool)
        ensures
            r == self.is_closed(),
    {
        self.closed
    }

    /// How many jobs are pending.
    pub fn pending_len(&self) -> (r: usize)
        ensures
            r == self.pending().len(),
    {
        self.jobs.len()
    }

    /// Exactly-once: once the queue has drained, the jobs handed out are
    /// exactly the jobs submitted, in submission order — one hand-out per
    /// submitted job, none lost, none duplicated, whatever the worker count.
    pub proof fn lemma_drained_exactly_once(&self)
        requires
            self.conserved(),
            self.pending().len() == 0,
        ensures
            self.taken() == self.submitted(),
    {
        assert(self.taken() + self.pending() =~= self.taken());
    }

    /// Queue drains fully: a worker is told to finish only when the queue is
    /// closed with nothing pending, and by then every submitted job has been
    /// handed out to some worker.
    pub proof fn lemma_finished_queue_drained(&self)
        requires
            self.conserved(),
            self.is_closed(),
            self.pending().len() == 0,
        ensures
            self.taken() == self.submitted(),
    {
        self.lemma_drained_exactly_once();
    }

    /// No duplication, no loss: when the submitted jobs were numbered 1..=n
    /// and the queue has drained, the multiset of handed-out indices is
    /// exactly {1, ..., n}.
    pub proof fn lemma_no_duplication_no_loss(&self, n: int)
        requires
            self.conserved(),
            self.pending().len() == 0,
            self.submitted().len() == n,
            forall|k: int| 0 <= k < n ==> self.submitted()[k].index == k + 1,
        ensures
            indices_of(self.taken()).to_multiset() == Seq::new(n as nat, |k: int| k + 1)
                .to_multiset(),
    {
        self.lemma_drained_exactly_once();
        assert(indices_of(self.taken()) =~= Seq::new(n as nat, |k: int| k + 1));
    }
}

} // verus!
