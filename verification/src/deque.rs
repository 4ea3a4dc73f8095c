//! The fixed-capacity ring buffer of `heapless`, as the queues use it.
//!
//! Nothing in this file is proved: each contract restates what the source
//! of `heapless::Deque` does to the stored items, in front-to-back order.

use crate::job::Job;
use vstd::prelude::*;

verus! {

#[verifier::external_type_specification]
#[verifier::external_body]
#[verifier::reject_recursive_types(T)]
pub struct ExDeque<T, const N: usize>(heapless::Deque<T, N>);

/// The jobs a deque holds, front first.
pub uninterp spec fn deque_jobs(deque: heapless::Deque<Job, 32>) -> Seq<Job>;

/// `heapless::Deque::new`: a deque that holds nothing.
#[verifier::external_body]
pub(crate) fn deque_new() -> (deque: heapless::Deque<Job, 32>)
    ensures
        deque_jobs(deque) == Seq::<Job>::empty(),
{
    heapless::Deque::new()
}

/// `heapless::Deque::len`: the number of stored jobs.
#[verifier::external_body]
pub(crate) fn deque_len(deque: &heapless::Deque<Job, 32>) -> (len: usize)
    ensures
        len == deque_jobs(*deque).len(),
{
    deque.len()
}

/// `heapless::Deque::front`: the front job, or nothing for an empty deque.
/// The job is copied out of the reference that `front` returns.
#[verifier::external_body]
pub(crate) fn deque_front(deque: &heapless::Deque<Job, 32>) -> (front: Option<Job>)
    ensures
        front == if deque_jobs(*deque).len() == 0 {
            None
        } else {
            Some(deque_jobs(*deque)[0])
        },
{
    deque.front().copied()
}

/// `heapless::Deque::pop_front`: removes and returns the front job; an
/// empty deque stays as it is and gives nothing.
#[verifier::external_body]
pub(crate) fn deque_pop_front(deque: &mut heapless::Deque<Job, 32>) -> (front: Option<Job>)
    ensures
        match front {
            Some(job) => deque_jobs(*old(deque)).len() > 0 && job == deque_jobs(*old(deque))[0]
                && deque_jobs(*final(deque)) == deque_jobs(*old(deque)).drop_first(),
            None => deque_jobs(*old(deque)).len() == 0 && deque_jobs(*final(deque))
                == deque_jobs(*old(deque)),
        },
{
    deque.pop_front()
}

/// `heapless::Deque::push_back`: appends the job behind the others, unless
/// all 32 slots are taken; then the deque stays as it is and the job comes
/// back.
#[verifier::external_body]
pub(crate) fn deque_push_back(deque: &mut heapless::Deque<Job, 32>, job: Job) -> (pushed: Result<
    (),
    Job,
>)
    ensures
        match pushed {
            Ok(_) => deque_jobs(*old(deque)).len() < 32 && deque_jobs(*final(deque))
                == deque_jobs(*old(deque)).push(job),
            Err(back) => deque_jobs(*old(deque)).len() >= 32 && back == job && deque_jobs(
                *final(deque),
            ) == deque_jobs(*old(deque)),
        },
{
    deque.push_back(job)
}

/// `heapless::Deque::push_front`: puts the job before the others, unless
/// all 32 slots are taken; then the deque stays as it is and the job comes
/// back.
#[verifier::external_body]
pub(crate) fn deque_push_front(deque: &mut heapless::Deque<Job, 32>, job: Job) -> (pushed: Result<
    (),
    Job,
>)
    ensures
        match pushed {
            Ok(_) => deque_jobs(*old(deque)).len() < 32 && deque_jobs(*final(deque)) == seq![
                job,
            ] + deque_jobs(*old(deque)),
            Err(back) => deque_jobs(*old(deque)).len() >= 32 && back == job && deque_jobs(
                *final(deque),
            ) == deque_jobs(*old(deque)),
        },
{
    deque.push_front(job)
}

/// `heapless::Deque::clear`: drops every stored job.
#[verifier::external_body]
pub(crate) fn deque_clear(deque: &mut heapless::Deque<Job, 32>)
    ensures
        deque_jobs(*final(deque)) == Seq::<Job>::empty(),
{
    deque.clear()
}

} // verus!
