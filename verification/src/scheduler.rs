//! The scheduler: a set of axes polled one by one on a shared tick, with a
//! run switch and a rendezvous barrier between axes.
//!
//! A marker `Job::Sync(peer)` on an axis names the axis to meet. The two
//! have met once the front of the peer's queue is a marker that names the
//! first axis in turn; both markers then leave their queues together. A
//! marker counts as reached as soon as it is at the front of its queue,
//! also while the burst before it is still in flight.
//!
//! An axis whose marker is never answered stalls: every poll reports `Idle`
//! and leaves its queue as it is, for as long as the peer queues no answer.
//! That is the barrier at work, not a deadlock; the caller ends it by
//! queueing the answer on the peer or by `reset`.

use crate::job::Job;
use crate::status::Status;
use crate::stepper::{AxisState, StepperMotor};
use vstd::prelude::*;

verus! {

/// Everything a scheduler holds.
pub struct SchedulerState {
    pub axes: Seq<AxisState>,
    /// The run switch: while it is off no axis takes work from its queue.
    pub started: bool,
}

impl SchedulerState {
    pub open spec fn wf(self) -> bool {
        &&& self.axes.len() <= usize::MAX
        &&& forall|axis: int| 0 <= axis < self.axes.len() ==> (#[trigger] self.axes[axis]).wf()
    }

    /// The front of the queue of `axis` is a marker that names `peer`.
    pub open spec fn waits_for(self, axis: int, peer: int) -> bool {
        &&& 0 <= axis < self.axes.len()
        &&& self.axes[axis].jobs.len() > 0
        &&& self.axes[axis].jobs[0] matches Job::Sync(named)
        &&& named == peer
    }

    /// No marker anywhere in the queue of `peer` names `axis`. An index
    /// beyond the last axis has no queue to hold one.
    pub open spec fn unanswered(self, axis: int, peer: int) -> bool {
        0 <= peer < self.axes.len() ==> forall|at: int|
            0 <= at < self.axes[peer].jobs.len() ==> !(#[trigger] self.axes[peer].jobs[at]
                matches Job::Sync(named) && named == axis)
    }

    /// The front of the queue of `axis` is a marker, and the front of the
    /// queue of the axis it names is a marker that names `axis`.
    pub open spec fn met(self, axis: int) -> bool {
        &&& 0 <= axis < self.axes.len()
        &&& self.axes[axis].jobs.len() > 0
        &&& self.axes[axis].jobs[0] matches Job::Sync(peer)
        &&& peer < self.axes.len()
        &&& self.axes[peer as int].jobs.len() > 0
        &&& self.axes[peer as int].jobs[0] == Job::Sync(axis as usize)
    }

    /// `axis` with the front of its queue taken off.
    pub open spec fn advanced(self, axis: int) -> SchedulerState {
        SchedulerState {
            axes: self.axes.update(
                axis,
                AxisState { jobs: self.axes[axis].jobs.drop_first(), ..self.axes[axis] },
            ),
            ..self
        }
    }

    /// Two axes that have met pass the barrier: the marker leaves the queue
    /// of `axis`, and the answering marker leaves the queue of its peer. A
    /// marker that names its own axis is its own answer and leaves alone.
    pub open spec fn joined(self, axis: int) -> SchedulerState {
        let peer = self.axes[axis].jobs[0]->Sync_0 as int;
        if peer == axis {
            self.advanced(axis)
        } else {
            self.advanced(axis).advanced(peer)
        }
    }

    /// An idle axis looks for work. Markers at the front of its queue pass
    /// as long as each one has met its peer; a burst that comes to the front
    /// is loaded. A marker that has not met its peer stays, and so does
    /// everything behind it.
    pub open spec fn refilled(self, axis: int) -> SchedulerState
        decreases
            (if 0 <= axis < self.axes.len() {
                self.axes[axis].jobs.len()
            } else {
                0
            }),
    {
        if !(0 <= axis < self.axes.len()) || self.axes[axis].jobs.len() == 0 {
            self
        } else {
            match self.axes[axis].jobs[0] {
                Job::Spin(spin) => SchedulerState {
                    axes: self.axes.update(axis, self.axes[axis].started(spin)),
                    ..self
                },
                Job::Sync(_) => if self.met(axis) {
                    self.joined(axis).refilled(axis)
                } else {
                    self
                },
            }
        }
    }

    /// What looking for work reports: `Busy` if a burst was loaded, `Idle`
    /// if the queue ran empty or a marker holds the axis.
    pub open spec fn refill_status(self, axis: int) -> Status
        decreases
            (if 0 <= axis < self.axes.len() {
                self.axes[axis].jobs.len()
            } else {
                0
            }),
    {
        if !(0 <= axis < self.axes.len()) || self.axes[axis].jobs.len() == 0 {
            Status::Idle
        } else {
            match self.axes[axis].jobs[0] {
                Job::Spin(_) => Status::Busy,
                Job::Sync(_) => if self.met(axis) {
                    self.joined(axis).refill_status(axis)
                } else {
                    Status::Idle
                },
            }
        }
    }

    /// The scheduler after the generator of `axis` took one tick.
    pub open spec fn ticked(self, axis: int) -> SchedulerState {
        SchedulerState { axes: self.axes.update(axis, self.axes[axis].ticked()), ..self }
    }

    /// The run switch is off and nothing is in flight on `axis`: a poll
    /// leaves the axis alone.
    pub open spec fn gated(self, axis: int) -> bool {
        !self.started && !self.axes[axis].generator.active()
    }

    /// The run switch is on, and `axis` neither is under a fault nor has a
    /// burst in flight: a poll will look for work.
    pub open spec fn ready(self, axis: int) -> bool {
        &&& self.started
        &&& !self.axes[axis].faulted()
        &&& !self.axes[axis].generator.active()
    }

    /// The scheduler after one poll of `axis`. With the run switch off an
    /// idle axis is left as it is. Otherwise a fault freezes the axis; a
    /// burst in flight advances by one tick, whatever the run switch says;
    /// an idle axis parks its outputs and looks for work.
    pub open spec fn polled(self, axis: int) -> SchedulerState {
        if self.gated(axis) {
            self
        } else if self.ready(axis) {
            self.ticked(axis).refilled(axis)
        } else {
            self.ticked(axis)
        }
    }

    /// What that poll reports: `Idle` for an axis left alone, `Fault` under
    /// a fault, `Busy` for a burst in flight, and what looking for work
    /// reports otherwise.
    pub open spec fn poll_status(self, axis: int) -> Status {
        if self.gated(axis) {
            Status::Idle
        } else if self.ready(axis) {
            self.ticked(axis).refill_status(axis)
        } else {
            self.axes[axis].generator.tick_status(self.axes[axis].faulted())
        }
    }

    /// The scheduler after `count` polls of `axis` in a row.
    pub open spec fn polled_times(self, axis: int, count: nat) -> SchedulerState
        decreases count,
    {
        if count == 0 {
            self
        } else {
            self.polled_times(axis, (count - 1) as nat).polled(axis)
        }
    }

    /// The scheduler after one poll of each axis that `order` lists, in the
    /// order of the list.
    pub open spec fn polled_in(self, order: Seq<int>) -> SchedulerState
        decreases order.len(),
    {
        if order.len() == 0 {
            self
        } else {
            self.polled_in(order.drop_last()).polled(order.last())
        }
    }

    /// The scheduler after `job` was offered to the queue of `axis`.
    pub open spec fn offered(self, axis: int, job: Job) -> SchedulerState {
        SchedulerState { axes: self.axes.update(axis, self.axes[axis].offered(job)), ..self }
    }

    /// The scheduler after an emergency stop: every axis stopped, the run
    /// switch off.
    pub open spec fn stopped(self) -> SchedulerState {
        SchedulerState {
            axes: Seq::new(self.axes.len(), |axis: int| self.axes[axis].stopped()),
            started: false,
        }
    }
}

/// A set of stepper axes driven from one tick source.
pub struct Scheduler {
    axes: Vec<StepperMotor>,
    started: bool,
}

impl Scheduler {
    pub closed spec fn view(&self) -> SchedulerState {
        SchedulerState {
            axes: Seq::new(self.axes@.len(), |axis: int| self.axes@[axis]@),
            started: self.started,
        }
    }

    /// A scheduler over the axes given, with the run switch off.
    pub fn new(axes: Vec<StepperMotor>) -> (scheduler: Self)
        requires
            forall|axis: int| 0 <= axis < axes@.len() ==> (#[trigger] axes@[axis])@.wf(),
        ensures
            scheduler@.wf(),
            scheduler@.axes == Seq::new(axes@.len(), |axis: int| axes@[axis]@),
            !scheduler@.started,
    {
        proof {
            vstd::std_specs::vec::axiom_spec_len(&axes);
        }
        Self { axes, started: false }
    }

    /// The number of axes.
    pub fn axis_count(&self) -> (count: usize)
        ensures
            count == self@.axes.len(),
    {
        self.axes.len()
    }

    /// The axis with index `axis`, for its counters and lines.
    pub fn axis(&self, axis: usize) -> (motor: &StepperMotor)
        requires
            axis < self@.axes.len(),
        ensures
            motor@ == self@.axes[axis as int],
    {
        &self.axes[axis]
    }

    /// Records a fresh sample of the fault line of `axis`.
    pub fn sense_fault(&mut self, axis: usize, reading: crate::line::Reading)
        requires
            axis < old(self)@.axes.len(),
        ensures
            final(self)@ == (SchedulerState {
                axes: old(self)@.axes.update(
                    axis as int,
                    AxisState { fault: reading, ..old(self)@.axes[axis as int] },
                ),
                ..old(self)@
            }),
    {
        self.axes[axis].sense_fault(reading);
        assert(self@.axes =~= old(self)@.axes.update(
            axis as int,
            AxisState { fault: reading, ..old(self)@.axes[axis as int] },
        ));
    }

    /// Whether the run switch is on.
    pub fn is_started(&self) -> (started: bool)
        ensures
            started == self@.started,
    {
        self.started
    }

    /// How many more jobs the queue of `axis` admits.
    pub fn free_space(&self, axis: usize) -> (free: usize)
        requires
            self@.wf(),
            axis < self@.axes.len(),
        ensures
            free == self@.axes[axis as int].capacity - self@.axes[axis as int].jobs.len(),
    {
        self.axes[axis].free_space()
    }

    /// Offers a job to the queue of `axis`. A full queue stays as it is and
    /// hands the job back.
    pub fn push_job(&mut self, axis: usize, job: Job) -> (pushed: Result<(), Job>)
        requires
            old(self)@.wf(),
            axis < old(self)@.axes.len(),
        ensures
            final(self)@.wf(),
            final(self)@ == old(self)@.offered(axis as int, job),
            match pushed {
                Ok(_) => !old(self)@.axes[axis as int].full(),
                Err(back) => old(self)@.axes[axis as int].full() && back == job && final(self)@
                    == old(self)@,
            },
    {
        assert(self@.axes[axis as int].wf());
        let pushed = self.axes[axis].push_job(job);
        assert(self@.axes =~= old(self)@.offered(axis as int, job).axes);
        assert(pushed is Err ==> self@.axes =~= old(self)@.axes);
        pushed
    }

    /// Emergency stop: every queue is emptied, every burst in flight is
    /// dropped, and the run switch goes off.
    pub fn reset(&mut self)
        requires
            old(self)@.wf(),
        ensures
            final(self)@.wf(),
            final(self)@ == old(self)@.stopped(),
    {
        let count = self.axes.len();
        let mut axis: usize = 0;
        while axis < count
            invariant
                axis <= count,
                count == self@.axes.len(),
                count == old(self)@.axes.len(),
                self@.wf(),
                old(self)@.wf(),
                forall|done: int|
                    0 <= done < axis ==> #[trigger] self@.axes[done] == old(self)@.axes[done].stopped(),
                forall|ahead: int|
                    axis <= ahead < count ==> #[trigger] self@.axes[ahead] == old(self)@.axes[ahead],
            decreases count - axis,
        {
            let ghost before = self@;
            self.axes[axis].reset();
            assert(self@.axes =~= before.axes.update(
                axis as int,
                before.axes[axis as int].stopped(),
            ));
            axis = axis + 1;
        }
        self.started = false;
        assert(self@.axes =~= old(self)@.stopped().axes);
    }

    /// Turns the run switch off. Queues stay as they are and a burst in
    /// flight runs to its end, but no axis takes new work.
    pub fn pause(&mut self)
        ensures
            final(self)@ == (SchedulerState { started: false, ..old(self)@ }),
    {
        self.started = false;
    }

    /// Turns the run switch on.
    pub fn resume(&mut self)
        ensures
            final(self)@ == (SchedulerState { started: true, ..old(self)@ }),
    {
        self.started = true;
    }

    /// One tick of `axis`, to be called once per tick and axis.
    ///
    /// With the run switch off an axis with nothing in flight is left as it
    /// is and reports `Idle`. Otherwise the fault line, as last read,
    /// decides first: under a fault nothing changes and the report is
    /// `Fault`. A burst in flight advances by one tick and reports `Busy`.
    /// An idle axis parks its pulse and enable lines and then works through
    /// the front of its queue: a burst is taken off and loaded (`Busy`); a
    /// marker that has met its peer is taken off together with the peer's
    /// marker and the next job is looked at; a marker that has not stays and
    /// ends the poll (`Idle`), as an empty queue does. One poll takes at
    /// most as many jobs off the queue of `axis` as it holds.
    pub fn poll(&mut self, axis: usize) -> (status: Status)
        requires
            old(self)@.wf(),
            axis < old(self)@.axes.len(),
        ensures
            final(self)@.wf(),
            final(self)@ == old(self)@.polled(axis as int),
            status == old(self)@.poll_status(axis as int),
    {
        if !self.started && !self.axes[axis].is_active() {
            return Status::Idle;
        }
        let status = self.axes[axis].tick();
        assert(self@ == old(self)@.ticked(axis as int)) by {
            assert(self@.axes =~= old(self)@.ticked(axis as int).axes);
        }
        match status {
            Status::Idle => {},
            _ => {
                return status;
            },
        }
        let ghost parked = self@;
        loop
            invariant
                self@.wf(),
                axis < self@.axes.len(),
                parked == old(self)@.ticked(axis as int),
                old(self)@.ready(axis as int),
                self@.refilled(axis as int) == parked.refilled(axis as int),
                self@.refill_status(axis as int) == parked.refill_status(axis as int),
            decreases self@.axes[axis as int].jobs.len(),
        {
            let ghost now = self@;
            match self.axes[axis].next_job() {
                None => {
                    return Status::Idle;
                },
                Some(Job::Spin(spin)) => {
                    self.axes[axis].start(spin);
                    assert(self@.axes =~= now.axes.update(
                        axis as int,
                        now.axes[axis as int].started(spin),
                    ));
                    return Status::Busy;
                },
                Some(Job::Sync(peer)) => {
                    let met = peer == axis || self.answers(peer, axis);
                    self.axes[axis].take_job();
                    assert(self@.axes =~= now.advanced(axis as int).axes);
                    if !met {
                        let _ = self.axes[axis].return_job(Job::Sync(peer));
                        assert(seq![Job::Sync(peer)] + now.axes[axis as int].jobs.drop_first()
                            =~= now.axes[axis as int].jobs);
                        assert(self@.axes =~= now.axes);
                        return Status::Idle;
                    }
                    if peer != axis {
                        self.axes[peer].take_job();
                        assert(self@.axes =~= now.joined(axis as int).axes);
                    }
                },
            }
        }
    }

    /// Whether the front of the queue of `peer` is a marker that names
    /// `axis`. An index beyond the last axis answers nothing.
    fn answers(&self, peer: usize, axis: usize) -> (answers: bool)
        ensures
            answers == (peer < self@.axes.len() && self@.axes[peer as int].jobs.len() > 0
                && self@.axes[peer as int].jobs[0] == Job::Sync(axis)),
    {
        if peer >= self.axes.len() {
            return false;
        }
        match self.axes[peer].next_job() {
            Some(Job::Sync(named)) => named == axis,
            _ => false,
        }
    }
}

} // verus!
