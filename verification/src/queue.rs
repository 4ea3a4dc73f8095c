//! The bounded job queue of one axis.

use crate::deque::{
    deque_clear, deque_front, deque_jobs, deque_len, deque_new, deque_pop_front, deque_push_back,
    deque_push_front,
};
use crate::job::Job;
use vstd::prelude::*;

verus! {

/// The number of slots every queue is backed by; no queue can be configured
/// to hold more.
pub const MAX_QUEUE_CAPACITY: usize = 32;

/// The pending jobs after `job` was offered at the back of a queue that
/// admits `capacity` jobs: a queue with room takes it, a full queue stays as
/// it is.
pub open spec fn admitted(jobs: Seq<Job>, capacity: nat, job: Job) -> Seq<Job> {
    if jobs.len() < capacity {
        jobs.push(job)
    } else {
        jobs
    }
}

/// The pending jobs after each job of `offers` was offered at the back, in
/// order.
pub open spec fn admitted_all(jobs: Seq<Job>, capacity: nat, offers: Seq<Job>) -> Seq<Job>
    decreases offers.len(),
{
    if offers.len() == 0 {
        jobs
    } else {
        admitted(admitted_all(jobs, capacity, offers.drop_last()), capacity, offers.last())
    }
}

/// The pending jobs after `count` jobs were taken from the front. Taking
/// from an empty queue leaves it empty.
pub open spec fn served(jobs: Seq<Job>, count: nat) -> Seq<Job>
    decreases count,
{
    if count == 0 || jobs.len() == 0 {
        jobs
    } else {
        served(jobs.drop_first(), (count - 1) as nat)
    }
}

/// First in, first out. Jobs offered one after the other to an empty queue
/// that has room for all of them are pending in the order of the offers,
/// and they leave in that order: after `count` jobs were taken, the next
/// one to leave is the one that was offered as number `count`, counting
/// from 0.
pub proof fn lemma_first_in_first_out(capacity: nat, offers: Seq<Job>, count: nat)
    requires
        offers.len() <= capacity,
        count < offers.len(),
    ensures
        admitted_all(Seq::<Job>::empty(), capacity, offers) == offers,
        served(offers, count).len() > 0,
        served(offers, count)[0] == offers[count as int],
{
    lemma_admitted_in_order(capacity, offers);
    lemma_served_skips(offers, count);
}

/// Offers that all find room are pending in the order in which they came.
pub proof fn lemma_admitted_in_order(capacity: nat, offers: Seq<Job>)
    requires
        offers.len() <= capacity,
    ensures
        admitted_all(Seq::<Job>::empty(), capacity, offers) == offers,
    decreases offers.len(),
{
    if offers.len() > 0 {
        lemma_admitted_in_order(capacity, offers.drop_last());
    }
}

/// Taking `count` jobs from the front leaves the jobs from number `count`
/// on.
pub proof fn lemma_served_skips(jobs: Seq<Job>, count: nat)
    requires
        count <= jobs.len(),
    ensures
        served(jobs, count) == jobs.skip(count as int),
    decreases count,
{
    if count > 0 {
        lemma_served_skips(jobs.drop_first(), (count - 1) as nat);
    }
}

/// A first-in first-out buffer of jobs with a capacity fixed at creation.
///
/// Its view is the sequence of pending jobs, oldest first.
pub struct AxisQueue {
    jobs: heapless::Deque<Job, 32>,
    capacity: usize,
}

impl AxisQueue {
    /// The pending jobs, oldest first.
    pub closed spec fn view(&self) -> Seq<Job> {
        deque_jobs(self.jobs)
    }

    /// The capacity the queue was created with.
    pub closed spec fn limit(&self) -> nat {
        self.capacity as nat
    }

    /// The queue never holds more than its capacity, and the capacity never
    /// exceeds the backing store.
    pub open spec fn wf(&self) -> bool {
        self@.len() <= self.limit() <= MAX_QUEUE_CAPACITY
    }

    /// An empty queue that admits up to `capacity` jobs.
    pub fn new(capacity: usize) -> (queue: Self)
        requires
            capacity <= MAX_QUEUE_CAPACITY,
        ensures
            queue.wf(),
            queue@ == Seq::<Job>::empty(),
            queue.limit() == capacity,
    {
        Self { jobs: deque_new(), capacity }
    }

    pub fn capacity(&self) -> (capacity: usize)
        ensures
            capacity == self.limit(),
    {
        self.capacity
    }

    pub fn len(&self) -> (len: usize)
        ensures
            len == self@.len(),
    {
        deque_len(&self.jobs)
    }

    pub fn is_empty(&self) -> (empty: bool)
        ensures
            empty == (self@.len() == 0),
    {
        deque_len(&self.jobs) == 0
    }

    /// How many more jobs the queue admits.
    pub fn free_space(&self) -> (free: usize)
        requires
            self.wf(),
        ensures
            free == self.limit() - self@.len(),
    {
        self.capacity - deque_len(&self.jobs)
    }

    /// Appends `job` behind the pending jobs. A queue at capacity stays as
    /// it is and hands the job back.
    pub fn push_back(&mut self, job: Job) -> (pushed: Result<(), Job>)
        requires
            old(self).wf(),
        ensures
            final(self).wf(),
            final(self).limit() == old(self).limit(),
            final(self)@ == admitted(old(self)@, old(self).limit(), job),
            match pushed {
                Ok(_) => old(self)@.len() < old(self).limit(),
                Err(back) => old(self)@.len() == old(self).limit() && back == job && final(self)@
                    == old(self)@,
            },
    {
        if deque_len(&self.jobs) >= self.capacity {
            Err(job)
        } else {
            deque_push_back(&mut self.jobs, job)
        }
    }

    /// Puts `job` before the pending jobs, so that it is the next to leave.
    /// A queue at capacity stays as it is and hands the job back.
    pub fn push_front(&mut self, job: Job) -> (pushed: Result<(), Job>)
        requires
            old(self).wf(),
        ensures
            final(self).wf(),
            final(self).limit() == old(self).limit(),
            match pushed {
                Ok(_) => old(self)@.len() < old(self).limit() && final(self)@ == seq![job]
                    + old(self)@,
                Err(back) => old(self)@.len() == old(self).limit() && back == job && final(self)@
                    == old(self)@,
            },
    {
        if deque_len(&self.jobs) >= self.capacity {
            Err(job)
        } else {
            deque_push_front(&mut self.jobs, job)
        }
    }

    /// Removes and returns the oldest job, or nothing from an empty queue.
    pub fn pop_front(&mut self) -> (front: Option<Job>)
        requires
            old(self).wf(),
        ensures
            final(self).wf(),
            final(self).limit() == old(self).limit(),
            final(self)@ == served(old(self)@, 1),
            match front {
                Some(job) => old(self)@.len() > 0 && job == old(self)@[0] && final(self)@ == old(
                    self,
                )@.drop_first(),
                None => old(self)@.len() == 0 && final(self)@ == old(self)@,
            },
    {
        proof {
            reveal_with_fuel(served, 2);
        }
        deque_pop_front(&mut self.jobs)
    }

    /// The oldest job, left in place.
    pub fn front(&self) -> (front: Option<Job>)
        ensures
            front == if self@.len() == 0 {
                None
            } else {
                Some(self@[0])
            },
    {
        deque_front(&self.jobs)
    }

    /// Drops every pending job.
    pub fn clear(&mut self)
        requires
            old(self).wf(),
        ensures
            final(self).wf(),
            final(self)@ == Seq::<Job>::empty(),
            final(self).limit() == old(self).limit(),
    {
        deque_clear(&mut self.jobs)
    }
}

} // verus!
