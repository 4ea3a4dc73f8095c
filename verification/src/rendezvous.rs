//! What holds of the scheduler over one poll and over many: the barrier
//! passes two axes that wait for each other and holds an axis whose peer
//! does not answer, a scheduler that is switched off takes no work, and an
//! emergency stop leaves every axis idle.

use crate::generator::lemma_burst_ends;
use crate::job::Job;
use crate::scheduler::SchedulerState;
use crate::status::Status;
use crate::stepper::AxisState;
use vstd::prelude::*;

verus! {

/// Looking for work keeps a scheduler well formed, keeps the number of
/// axes, and never lengthens a queue.
pub proof fn lemma_refill_shortens(state: SchedulerState, axis: int)
    requires
        state.wf(),
        0 <= axis < state.axes.len(),
    ensures
        state.refilled(axis).wf(),
        state.refilled(axis).started == state.started,
        state.refilled(axis).axes.len() == state.axes.len(),
        forall|other: int|
            0 <= other < state.axes.len() ==> (#[trigger] state.refilled(axis).axes[other]).jobs.len()
                <= state.axes[other].jobs.len(),
    decreases state.axes[axis].jobs.len(),
{
    if state.met(axis) {
        lemma_refill_shortens(state.joined(axis), axis);
    }
}

/// A poll keeps a scheduler well formed, keeps the number of axes and the
/// run switch, and never lengthens a queue.
pub proof fn lemma_poll_keeps_wf(state: SchedulerState, axis: int)
    requires
        state.wf(),
        0 <= axis < state.axes.len(),
    ensures
        state.polled(axis).wf(),
        state.polled(axis).started == state.started,
        state.polled(axis).axes.len() == state.axes.len(),
        forall|other: int|
            0 <= other < state.axes.len() ==> (#[trigger] state.polled(axis).axes[other]).jobs.len()
                <= state.axes[other].jobs.len(),
{
    if state.ready(axis) {
        lemma_refill_shortens(state.ticked(axis), axis);
    }
}

/// The barrier passes. Two different axes wait for each other: the front
/// of each queue is a marker that names the other axis. A poll of either of
/// them that finds it ready takes both markers off their queues in that one
/// poll; the polled axis then goes on to the job behind its marker at once,
/// the other on its own next poll.
pub proof fn lemma_rendezvous_passes(state: SchedulerState, axis: int, peer: int)
    requires
        state.wf(),
        axis != peer,
        state.waits_for(axis, peer),
        state.waits_for(peer, axis),
        state.ready(axis),
    ensures
        state.polled(axis) == state.ticked(axis).joined(axis).refilled(axis),
        state.ticked(axis).joined(axis).axes[axis].jobs == state.axes[axis].jobs.drop_first(),
        state.ticked(axis).joined(axis).axes[peer].jobs == state.axes[peer].jobs.drop_first(),
        state.polled(axis).axes[axis].jobs.len() < state.axes[axis].jobs.len(),
        state.polled(axis).axes[peer].jobs.len() < state.axes[peer].jobs.len(),
{
    lemma_refill_shortens(state.ticked(axis).joined(axis), axis);
}

/// Polls of an axis with a burst in flight only advance its generator:
/// while the burst lasts and no fault is read, `count` polls are `count`
/// ticks, and every queue stays as it is.
pub proof fn lemma_polls_tick(state: SchedulerState, axis: int, count: nat)
    requires
        state.wf(),
        0 <= axis < state.axes.len(),
        !state.axes[axis].faulted(),
        count <= state.axes[axis].generator.ticks_left(),
    ensures
        state.polled_times(axis, count) == (SchedulerState {
            axes: state.axes.update(
                axis,
                AxisState {
                    generator: state.axes[axis].generator.run(count),
                    ..state.axes[axis]
                },
            ),
            ..state
        }),
    decreases count,
{
    if count == 0 {
        assert(state.axes.update(axis, state.axes[axis]) =~= state.axes);
    } else {
        lemma_polls_tick(state, axis, (count - 1) as nat);
        lemma_burst_ends(state.axes[axis].generator, (count - 1) as nat);
        let prior = state.polled_times(axis, (count - 1) as nat);
        assert(prior.ticked(axis).axes =~= state.axes.update(
            axis,
            AxisState { generator: state.axes[axis].generator.run(count), ..state.axes[axis] },
        ));
    }
}

/// The barrier passes in finite time. Two different axes wait for each
/// other, the run switch is on and no fault is read on the polled axis.
/// Then the polls of that axis first run its burst in flight to the end,
/// which takes `ticks_left` polls and leaves both markers in place, and
/// the poll after that takes both markers off their queues.
pub proof fn lemma_rendezvous_in_finite_ticks(state: SchedulerState, axis: int, peer: int)
    requires
        state.wf(),
        axis != peer,
        state.waits_for(axis, peer),
        state.waits_for(peer, axis),
        state.started,
        !state.axes[axis].faulted(),
    ensures
        ({
            let wait = state.axes[axis].generator.ticks_left();
            let arrived = state.polled_times(axis, wait);
            let passed = state.polled_times(axis, wait + 1);
            &&& arrived.axes[axis].jobs == state.axes[axis].jobs
            &&& arrived.axes[peer] == state.axes[peer]
            &&& passed == arrived.ticked(axis).joined(axis).refilled(axis)
            &&& passed.axes[axis].jobs.len() < state.axes[axis].jobs.len()
            &&& passed.axes[peer].jobs.len() < state.axes[peer].jobs.len()
        }),
{
    let wait = state.axes[axis].generator.ticks_left();
    lemma_polls_tick(state, axis, wait);
    lemma_burst_ends(state.axes[axis].generator, wait);
    lemma_rendezvous_passes(state.polled_times(axis, wait), axis, peer);
}

/// A poll of any axis leaves a lone marker where it is. The front of the
/// queue of `axis` is a marker, and no marker in the queue of the axis it
/// names answers it. Then the poll changes nothing in the queue of `axis`,
/// and the marker is as lone after the poll as before.
pub proof fn lemma_lone_marker_stays(state: SchedulerState, axis: int, peer: int, polled: int)
    requires
        state.wf(),
        0 <= polled < state.axes.len(),
        state.waits_for(axis, peer),
        state.unanswered(axis, peer),
    ensures
        state.polled(polled).wf(),
        state.polled(polled).axes.len() == state.axes.len(),
        state.polled(polled).axes[axis].jobs == state.axes[axis].jobs,
        state.polled(polled).waits_for(axis, peer),
        state.polled(polled).unanswered(axis, peer),
{
    lemma_poll_keeps_wf(state, polled);
    if state.ready(polled) {
        lemma_lone_marker_outlasts_refill(state.ticked(polled), axis, peer, polled);
    }
}

/// A lone marker holds its axis idle. The front of the queue of `axis` is
/// a marker that no marker in the queue of the axis it names answers, and
/// nothing is in flight on `axis`. Then a poll of `axis` reports `Idle`
/// unless a fault is read with the run switch on, and takes nothing off its
/// queue.
pub proof fn lemma_lone_marker_reports_idle(state: SchedulerState, axis: int, peer: int)
    requires
        state.wf(),
        state.waits_for(axis, peer),
        state.unanswered(axis, peer),
        !state.axes[axis].generator.active(),
    ensures
        state.poll_status(axis) == if state.started && state.axes[axis].faulted() {
            Status::Fault
        } else {
            Status::Idle
        },
        state.polled(axis).axes[axis].jobs == state.axes[axis].jobs,
{
    lemma_lone_marker_stays(state, axis, peer, axis);
}

/// Looking for work on any axis leaves a lone marker where it is.
pub proof fn lemma_lone_marker_outlasts_refill(
    state: SchedulerState,
    axis: int,
    peer: int,
    polled: int,
)
    requires
        state.wf(),
        0 <= polled < state.axes.len(),
        state.waits_for(axis, peer),
        state.unanswered(axis, peer),
    ensures
        state.refilled(polled).axes.len() == state.axes.len(),
        state.refilled(polled).axes[axis].jobs == state.axes[axis].jobs,
        state.refilled(polled).waits_for(axis, peer),
        state.refilled(polled).unanswered(axis, peer),
    decreases state.axes[polled].jobs.len(),
{
    if state.met(polled) {
        lemma_lone_marker_outlasts_refill(state.joined(polled), axis, peer, polled);
    }
}

/// A lone marker holds its axis for good. The front of the queue of `axis`
/// is a marker, and no marker in the queue of the axis it names answers
/// it. Then no sequence of polls, of whatever axes and however long, takes
/// anything off the queue of `axis`.
pub proof fn lemma_lone_marker_stalls(state: SchedulerState, axis: int, peer: int, order: Seq<int>)
    requires
        state.wf(),
        state.waits_for(axis, peer),
        state.unanswered(axis, peer),
        forall|at: int| 0 <= at < order.len() ==> 0 <= #[trigger] order[at] < state.axes.len(),
    ensures
        state.polled_in(order).wf(),
        state.polled_in(order).axes.len() == state.axes.len(),
        state.polled_in(order).axes[axis].jobs == state.axes[axis].jobs,
        state.polled_in(order).waits_for(axis, peer),
        state.polled_in(order).unanswered(axis, peer),
    decreases order.len(),
{
    if order.len() > 0 {
        lemma_lone_marker_stalls(state, axis, peer, order.drop_last());
        lemma_lone_marker_stays(state.polled_in(order.drop_last()), axis, peer, order.last());
    }
}

/// With the run switch off no axis takes work. Polls, of whatever axes and
/// however many, leave every queue as it is and the switch off; they only
/// advance the bursts that were in flight when the switch went off.
pub proof fn lemma_paused_takes_no_work(state: SchedulerState, order: Seq<int>)
    requires
        state.wf(),
        !state.started,
        forall|at: int| 0 <= at < order.len() ==> 0 <= #[trigger] order[at] < state.axes.len(),
    ensures
        state.polled_in(order).wf(),
        !state.polled_in(order).started,
        state.polled_in(order).axes.len() == state.axes.len(),
        forall|axis: int|
            0 <= axis < state.axes.len() ==> (#[trigger] state.polled_in(order).axes[axis]).jobs
                == state.axes[axis].jobs,
    decreases order.len(),
{
    if order.len() > 0 {
        lemma_paused_takes_no_work(state, order.drop_last());
        lemma_poll_keeps_wf(state.polled_in(order.drop_last()), order.last());
    }
}

/// After an emergency stop every axis is idle. Whatever was queued or in
/// flight before, the poll of any axis that follows the stop reports
/// `Idle`, changes nothing, and finds the queue empty and no step left to
/// take.
pub proof fn lemma_poll_after_reset(state: SchedulerState, axis: int)
    requires
        0 <= axis < state.axes.len(),
    ensures
        state.stopped().poll_status(axis) == Status::Idle,
        state.stopped().polled(axis) == state.stopped(),
        state.stopped().polled(axis).axes[axis].jobs == Seq::<Job>::empty(),
        state.stopped().polled(axis).axes[axis].generator.remaining == 0,
{
}

} // verus!
