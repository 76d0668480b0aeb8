//! Jobs that other threads want to have run on the thread of the event loop.

use vstd::prelude::*;

verus! {

/// Jobs in the order in which they were queued.
pub struct Queue<T> {
    jobs: Vec<T>,
}

impl<T> View for Queue<T> {
    type V = Seq<T>;

    closed spec fn view(&self) -> Seq<T> {
        self.jobs@
    }
}

impl<T> Queue<T> {
    /// Makes an empty queue.
    pub fn new() -> (queue: Queue<T>)
        ensures
            queue@ == Seq::<T>::empty(),
    {
        Queue { jobs: Vec::new() }
    }

    /// Queues a job behind all others.
    pub fn push(&mut self, job: T)
        ensures
            final(self)@ == old(self)@.push(job),
    {
        self.jobs.push(job);
    }

    /// Takes all jobs out of the queue, first job first.
    pub fn drain(&mut self) -> (jobs: Vec<T>)
        ensures
            jobs@ == old(self)@,
            final(self)@ == Seq::<T>::empty(),
    {
        let mut jobs: Vec<T> = Vec::new();
        core::mem::swap(&mut self.jobs, &mut jobs);
        jobs
    }
}

/// One use of a queue.
pub enum Use<T> {
    /// A job is queued.
    Push(T),
    /// The queue is drained.
    Drain,
}

/// The jobs queued over the given uses, in order.
pub open spec fn pushed<T>(uses: Seq<Use<T>>) -> Seq<T>
    decreases uses.len(),
{
    if uses.len() == 0 {
        Seq::empty()
    } else {
        match uses.last() {
            Use::Push(job) => pushed(uses.drop_last()).push(job),
            Use::Drain => pushed(uses.drop_last()),
        }
    }
}

/// The jobs taken out over the given uses of a queue that is empty at first, in order, and the jobs
/// that are left in it.
pub open spec fn taken_and_left<T>(uses: Seq<Use<T>>) -> (Seq<T>, Seq<T>)
    decreases uses.len(),
{
    if uses.len() == 0 {
        (Seq::empty(), Seq::empty())
    } else {
        let (taken, left) = taken_and_left(uses.drop_last());
        match uses.last() {
            Use::Push(job) => (taken, left.push(job)),
            Use::Drain => (taken + left, Seq::empty()),
        }
    }
}

/// However pushes and drains follow one another, every job is taken out at most once, in the order
/// in which the jobs were queued, and none is lost: those not taken out are still queued.
pub proof fn every_job_runs_once_in_order<T>(uses: Seq<Use<T>>)
    ensures
        taken_and_left(uses).0 + taken_and_left(uses).1 == pushed(uses),
        uses.len() > 0 && uses.last() is Drain ==> taken_and_left(uses).0 == pushed(uses),
    decreases uses.len(),
{
    if uses.len() == 0 {
        assert(taken_and_left(uses).0 + taken_and_left(uses).1 =~= Seq::<T>::empty());
    } else {
        every_job_runs_once_in_order(uses.drop_last());
        let (taken, left) = taken_and_left(uses.drop_last());
        match uses.last() {
            Use::Push(job) => {
                assert(taken + left.push(job) =~= (taken + left).push(job));
            },
            Use::Drain => {
                assert((taken + left) + Seq::<T>::empty() =~= taken + left);
            },
        }
    }
}

} // verus!
