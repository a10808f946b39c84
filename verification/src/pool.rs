//! A model of the fixed-size worker pool: a FIFO job queue shared by a fixed
//! set of workers, with submission, delivery, fault containment and orderly
//! shutdown. Jobs are carried as identifiers; running one is the caller's
//! business. Each transition says exactly what it does to the queue, to the
//! delivery record and to the workers' counts, so the pool's guarantees (no
//! job dropped or duplicated, FIFO delivery, no worker lost to a fault, a
//! drained queue on shutdown) are stated on the methods themselves.

use vstd::prelude::*;

verus! {

/// A fixed set of workers around one shared FIFO job queue.
///
/// Each worker is counted in exactly one of `idle`, `busy` and `exited`;
/// `delivered` records, in order, every job handed to a worker; `submitted`
/// records every job ever accepted. `delivered + queue == submitted` is the
/// pool's central invariant: every accepted job is either still queued or was
/// handed out exactly once, in submission order.
pub struct WorkerPool {
    /// How many workers the pool was built with; never changes.
    pub size: usize,
    /// Workers blocked waiting for a job.
    pub idle: usize,
    /// Workers running a job.
    pub busy: usize,
    /// Workers that have terminated after shutdown began.
    pub exited: usize,
    /// Whether the submitting side is still open.
    pub open: bool,
    /// Jobs accepted and not yet handed to a worker, oldest first.
    pub queue: Vec<u64>,
    /// Jobs handed to a worker, in delivery order.
    pub delivered: Vec<u64>,
    /// Every job ever accepted, in submission order.
    pub submitted: Ghost<Seq<u64>>,
}

impl WorkerPool {
    /// The pool's invariant.
    pub open spec fn wf(self) -> bool {
        &&& self.size >= 1
        &&& self.idle + self.busy + self.exited == self.size
        &&& self.delivered@ + self.queue@ == self.submitted@
        &&& (self.exited > 0 ==> !self.open && self.queue@.len() == 0)
    }

    /// Builds a pool of `size` workers, all waiting, around an empty queue.
    pub fn new(size: usize) -> (p: WorkerPool)
        requires
            size >= 1,
        ensures
            p.wf(),
            p.size == size,
            p.idle == size,
            p.busy == 0,
            p.exited == 0,
            p.open,
            p.queue@ == Seq::<u64>::empty(),
            p.delivered@ == Seq::<u64>::empty(),
            p.submitted@ == Seq::<u64>::empty(),
    {
        let p = WorkerPool {
            size,
            idle: size,
            busy: 0,
            exited: 0,
            open: true,
            queue: Vec::new(),
            delivered: Vec::new(),
            submitted: Ghost(Seq::empty()),
        };
        proof {
            assert(p.delivered@ + p.queue@ =~= p.submitted@);
        }
        p
    }

    /// Accepts a job: it goes to the back of the queue, and nothing else
    /// moves. The queue is unbounded, so submission never waits.
    pub fn submit(&mut self, job: u64)
        requires
            old(self).wf(),
            old(self).open,
        ensures
            final(self).wf(),
            final(self).queue@ == old(self).queue@.push(job),
            final(self).submitted@ == old(self).submitted@.push(job),
            final(self).delivered@ == old(self).delivered@,
            final(self).size == old(self).size,
            final(self).idle == old(self).idle,
            final(self).busy == old(self).busy,
            final(self).exited == old(self).exited,
            final(self).open,
    {
        self.queue.push(job);
        self.submitted = Ghost(self.submitted@.push(job));
        proof {
            assert(self.delivered@ + self.queue@ =~= self.submitted@);
        }
    }

    /// Hands the oldest queued job to a waiting worker, which starts running
    /// it: the head leaves the queue and is recorded as delivered, one
    /// worker goes from waiting to busy.
    pub fn deliver(&mut self) -> (job: u64)
        requires
            old(self).wf(),
            old(self).queue@.len() > 0,
            old(self).idle > 0,
        ensures
            final(self).wf(),
            job == old(self).queue@[0],
            final(self).queue@ == old(self).queue@.drop_first(),
            final(self).delivered@ == old(self).delivered@.push(job),
            final(self).submitted@ == old(self).submitted@,
            final(self).size == old(self).size,
            final(self).idle == old(self).idle - 1,
            final(self).busy == old(self).busy + 1,
            final(self).exited == old(self).exited,
            final(self).open == old(self).open,
    {
        let job = self.queue.remove(0);
        self.idle = self.idle - 1;
        self.busy = self.busy + 1;
        self.delivered.push(job);
        proof {
            assert(self.queue@ =~= old(self).queue@.drop_first());
            assert(self.delivered@ + self.queue@ =~= self.submitted@);
        }
        job
    }

    /// A busy worker runs its job to completion and goes back to waiting.
    pub fn finish(&mut self)
        requires
            old(self).wf(),
            old(self).busy > 0,
        ensures
            final(self).wf(),
            final(self).idle == old(self).idle + 1,
            final(self).busy == old(self).busy - 1,
            final(self).exited == old(self).exited,
            final(self).size == old(self).size,
            final(self).open == old(self).open,
            final(self).queue@ == old(self).queue@,
            final(self).delivered@ == old(self).delivered@,
            final(self).submitted@ == old(self).submitted@,
    {
        self.busy = self.busy - 1;
        self.idle = self.idle + 1;
    }

    /// A busy worker's job faults. The fault is contained at the job
    /// boundary: the worker survives and goes back to waiting, so the pool
    /// keeps every one of its workers and its concurrency never shrinks.
    pub fn fault(&mut self)
        requires
            old(self).wf(),
            old(self).busy > 0,
        ensures
            final(self).wf(),
            final(self).exited == old(self).exited,
            final(self).idle + final(self).busy == old(self).idle + old(self).busy,
            final(self).idle == old(self).idle + 1,
            final(self).busy == old(self).busy - 1,
            final(self).size == old(self).size,
            final(self).open == old(self).open,
            final(self).queue@ == old(self).queue@,
            final(self).delivered@ == old(self).delivered@,
            final(self).submitted@ == old(self).submitted@,
    {
        self.busy = self.busy - 1;
        self.idle = self.idle + 1;
    }

    /// Closes the submitting side; no further job is accepted.
    pub fn close(&mut self)
        requires
            old(self).wf(),
        ensures
            final(self).wf(),
            !final(self).open,
            final(self).size == old(self).size,
            final(self).idle == old(self).idle,
            final(self).busy == old(self).busy,
            final(self).exited == old(self).exited,
            final(self).queue@ == old(self).queue@,
            final(self).delivered@ == old(self).delivered@,
            final(self).submitted@ == old(self).submitted@,
    {
        self.open = false;
    }

    /// A waiting worker finds the queue closed and empty and terminates.
    pub fn worker_exit(&mut self)
        requires
            old(self).wf(),
            !old(self).open,
            old(self).queue@.len() == 0,
            old(self).idle > 0,
        ensures
            final(self).wf(),
            final(self).idle == old(self).idle - 1,
            final(self).exited == old(self).exited + 1,
            final(self).busy == old(self).busy,
            final(self).size == old(self).size,
            !final(self).open,
            final(self).queue@ == old(self).queue@,
            final(self).delivered@ == old(self).delivered@,
            final(self).submitted@ == old(self).submitted@,
    {
        self.idle = self.idle - 1;
        self.exited = self.exited + 1;
    }

    /// Hands out queued jobs while a worker is free: with K jobs queued and
    /// N workers waiting, all of min(K, N) start running at once, in
    /// submission order; whatever exceeds the waiting workers stays queued
    /// until one frees up.
    pub fn dispatch(&mut self)
        requires
            old(self).wf(),
        ensures
            final(self).wf(),
            final(self).size == old(self).size,
            final(self).exited == old(self).exited,
            final(self).open == old(self).open,
            final(self).submitted@ == old(self).submitted@,
            old(self).queue@.len() <= old(self).idle ==> {
                &&& final(self).busy == old(self).busy + old(self).queue@.len()
                &&& final(self).idle == old(self).idle - old(self).queue@.len()
                &&& final(self).queue@ == Seq::<u64>::empty()
                &&& final(self).delivered@ == old(self).delivered@ + old(self).queue@
            },
            old(self).queue@.len() > old(self).idle ==> {
                &&& final(self).busy == old(self).busy + old(self).idle
                &&& final(self).idle == 0
                &&& final(self).queue@ == old(self).queue@.skip(old(self).idle as int)
                &&& final(self).delivered@ == old(self).delivered@ + old(self).queue@.take(
                    old(self).idle as int,
                )
            },
    {
        let ghost mut k: int = 0;
        while self.queue.len() > 0 && self.idle > 0
            invariant
                self.wf(),
                0 <= k <= old(self).queue@.len(),
                k <= old(self).idle,
                self.size == old(self).size,
                self.exited == old(self).exited,
                self.open == old(self).open,
                self.submitted@ == old(self).submitted@,
                self.busy == old(self).busy + k,
                self.idle == old(self).idle - k,
                self.queue@ == old(self).queue@.skip(k),
                self.delivered@ == old(self).delivered@ + old(self).queue@.take(k),
            decreases self.queue@.len(),
        {
            self.deliver();
            proof {
                k = k + 1;
                assert(self.queue@ =~= old(self).queue@.skip(k));
                assert(self.delivered@ =~= old(self).delivered@ + old(self).queue@.take(k));
            }
        }
        proof {
            if old(self).queue@.len() <= old(self).idle {
                assert(self.queue@ =~= Seq::<u64>::empty());
                assert(old(self).queue@.take(old(self).queue@.len() as int) =~= old(self).queue@);
            } else {
                assert(k == old(self).idle);
            }
        }
    }

    /// Orderly shutdown, as when the pool is discarded: the submitting side
    /// closes first, every job already queued is still handed out and run to
    /// completion, and every worker terminates. No job is abandoned and no
    /// worker is left behind.
    pub fn shutdown(&mut self)
        requires
            old(self).wf(),
        ensures
            final(self).wf(),
            !final(self).open,
            final(self).size == old(self).size,
            final(self).queue@ == Seq::<u64>::empty(),
            final(self).delivered@ == old(self).delivered@ + old(self).queue@,
            final(self).submitted@ == old(self).submitted@,
            final(self).exited == final(self).size,
            final(self).busy == 0,
            final(self).idle == 0,
    {
        self.close();
        while self.busy > 0
            invariant
                self.wf(),
                !self.open,
                self.size == old(self).size,
                self.exited == old(self).exited,
                self.submitted@ == old(self).submitted@,
                self.queue@ == old(self).queue@,
                self.delivered@ == old(self).delivered@,
            decreases self.busy,
        {
            self.finish();
        }
        let ghost mut k: int = 0;
        while self.queue.len() > 0
            invariant
                self.wf(),
                !self.open,
                self.busy == 0,
                0 <= k <= old(self).queue@.len(),
                self.size == old(self).size,
                self.submitted@ == old(self).submitted@,
                self.queue@ == old(self).queue@.skip(k),
                self.delivered@ == old(self).delivered@ + old(self).queue@.take(k),
            decreases self.queue@.len(),
        {
            self.deliver();
            self.finish();
            proof {
                k = k + 1;
                assert(self.queue@ =~= old(self).queue@.skip(k));
                assert(self.delivered@ =~= old(self).delivered@ + old(self).queue@.take(k));
            }
        }
        proof {
            assert(self.queue@ =~= Seq::<u64>::empty());
            assert(old(self).queue@.take(old(self).queue@.len() as int) =~= old(self).queue@);
        }
        while self.idle > 0
            invariant
                self.wf(),
                !self.open,
                self.busy == 0,
                self.queue@.len() == 0,
                self.size == old(self).size,
                self.submitted@ == old(self).submitted@,
                self.delivered@ == old(self).delivered@ + old(self).queue@,
            decreases self.idle,
        {
            self.worker_exit();
        }
        proof {
            assert(self.queue@ =~= Seq::<u64>::empty());
        }
    }
}

/// Jobs reach workers in submission order: at any point, what has been
/// delivered is exactly the oldest part of what was submitted.
pub proof fn lemma_delivery_in_submission_order(p: WorkerPool)
    requires
        p.wf(),
    ensures
        p.delivered@ == p.submitted@.take(p.delivered@.len() as int),
{
    assert(p.submitted@.take(p.delivered@.len() as int) =~= p.delivered@);
}

/// Each job is handed out at most once: where no job identifier was
/// submitted twice, none is delivered twice.
pub proof fn lemma_job_delivered_at_most_once(p: WorkerPool)
    requires
        p.wf(),
        p.submitted@.no_duplicates(),
    ensures
        p.delivered@.no_duplicates(),
{
    lemma_delivery_in_submission_order(p);
    assert forall|i: int, j: int|
        0 <= i < p.delivered@.len() && 0 <= j < p.delivered@.len() && i != j implies p.delivered@[i]
        != p.delivered@[j] by {
        assert(p.delivered@[i] == p.submitted@[i]);
        assert(p.delivered@[j] == p.submitted@[j]);
    }
}

} // verus!
