use loco::line::{DigitalInput, DigitalOutput, PwmOutput, Reading};
use loco::scheduler::Scheduler;
use loco::stepper::StepperMotor;
use loco::{Job, Spin, Status};

fn scheduler_of(axes: usize, capacity: usize) -> Scheduler {
    let mut motors = Vec::new();
    for _ in 0..axes {
        motors.push(StepperMotor::with_capacity(
            capacity,
            DigitalOutput::new(false),
            DigitalOutput::new(false),
            DigitalOutput::new(false),
            DigitalOutput::new(false),
            DigitalInput::new(Reading::High),
            PwmOutput::new(100),
        ));
    }
    Scheduler::new(motors)
}

fn burst(pulses: i32) -> Job {
    Job::Spin(Spin::new(pulses, 255))
}

#[test]
fn new_scheduler_is_stopped() {
    let scheduler = scheduler_of(3, 4);
    assert_eq!(scheduler.axis_count(), 3);
    assert!(!scheduler.is_started());
    for axis in 0..3 {
        assert_eq!(scheduler.free_space(axis), 4);
        assert_eq!(scheduler.axis(axis).pending(), 0);
    }
}

#[test]
fn scheduler_capacity_two_scenario() {
    let mut scheduler = scheduler_of(2, 2);
    assert_eq!(scheduler.push_job(0, Job::Spin(Spin::new(4, 100))), Ok(()));
    assert_eq!(scheduler.push_job(0, Job::Sync(1)), Ok(()));
    assert_eq!(scheduler.free_space(0), 0);
    assert_eq!(
        scheduler.push_job(0, Job::Spin(Spin::new(1, 50))),
        Err(Job::Spin(Spin { pulses: 1, feed_rate: 50 }))
    );
    assert_eq!(scheduler.free_space(0), 0);
    assert_eq!(scheduler.axis(0).pending(), 2);
    assert_eq!(scheduler.free_space(1), 2);
}

#[test]
fn scheduler_free_space_is_capacity_less_pending_on_every_axis() {
    let mut scheduler = scheduler_of(3, 5);
    scheduler.push_job(0, burst(1)).unwrap();
    scheduler.push_job(2, burst(1)).unwrap();
    scheduler.push_job(2, Job::Sync(0)).unwrap();
    scheduler.push_job(2, burst(2)).unwrap();
    scheduler.resume();
    for _ in 0..6 {
        for axis in 0..3 {
            scheduler.poll(axis);
            for seen in 0..3 {
                assert_eq!(
                    scheduler.free_space(seen),
                    scheduler.axis(seen).capacity() - scheduler.axis(seen).pending()
                );
            }
        }
    }
    assert_eq!(scheduler.free_space(0), 5);
    assert_eq!(scheduler.free_space(1), 5);
    assert_eq!(scheduler.free_space(2), 3);
}

#[test]
fn stopped_scheduler_takes_no_work() {
    let mut scheduler = scheduler_of(1, 2);
    scheduler.push_job(0, burst(2)).unwrap();
    for _ in 0..10 {
        assert_eq!(scheduler.poll(0), Status::Idle);
    }
    assert_eq!(scheduler.axis(0).pending(), 1);
    assert!(!scheduler.axis(0).is_active());
    scheduler.resume();
    assert!(scheduler.is_started());
    assert_eq!(scheduler.poll(0), Status::Busy);
    assert_eq!(scheduler.axis(0).pending(), 0);
}

#[test]
fn scheduler_steps_a_burst_to_its_end() {
    let mut scheduler = scheduler_of(1, 2);
    scheduler.push_job(0, Job::Spin(Spin::new(2, 253))).unwrap();
    scheduler.resume();
    assert_eq!(scheduler.poll(0), Status::Busy);
    let mut edges = Vec::new();
    for tick in 1..=6 {
        assert_eq!(scheduler.poll(0), Status::Busy);
        if scheduler.axis(0).pulse_pin().is_set_high() {
            edges.push(tick);
        }
    }
    assert_eq!(edges, vec![3, 6]);
    assert_eq!(scheduler.axis(0).position(), 2);
    assert_eq!(scheduler.poll(0), Status::Idle);
    assert!(!scheduler.axis(0).pulse_pin().is_set_high());
    assert!(!scheduler.axis(0).enable_pin().is_set_high());
}

#[test]
fn two_axes_pass_the_barrier_together() {
    let mut scheduler = scheduler_of(2, 4);
    scheduler.push_job(0, Job::Sync(1)).unwrap();
    scheduler.push_job(0, burst(1)).unwrap();
    scheduler.push_job(1, Job::Sync(0)).unwrap();
    scheduler.push_job(1, burst(-1)).unwrap();
    scheduler.resume();
    assert_eq!(scheduler.poll(0), Status::Busy);
    assert_eq!(scheduler.axis(0).pending(), 0);
    assert_eq!(scheduler.axis(1).pending(), 1);
    assert_eq!(scheduler.poll(1), Status::Busy);
    assert_eq!(scheduler.axis(1).pending(), 0);
    for _ in 0..2 {
        assert_eq!(scheduler.poll(0), Status::Busy);
        assert_eq!(scheduler.poll(1), Status::Busy);
    }
    assert_eq!(scheduler.axis(0).position(), 1);
    assert_eq!(scheduler.axis(1).position(), -1);
    assert_eq!(scheduler.poll(0), Status::Idle);
    assert_eq!(scheduler.poll(1), Status::Idle);
}

#[test]
fn axis_waits_until_the_peer_reaches_its_marker() {
    let mut scheduler = scheduler_of(2, 4);
    scheduler.push_job(0, Job::Sync(1)).unwrap();
    scheduler.push_job(0, burst(1)).unwrap();
    scheduler.push_job(1, burst(2)).unwrap();
    scheduler.push_job(1, burst(1)).unwrap();
    scheduler.push_job(1, Job::Sync(0)).unwrap();
    scheduler.push_job(1, burst(3)).unwrap();
    scheduler.resume();
    // Axis 1 loads its first burst (1 poll), runs it (4), loads the second
    // (1) and only then has the marker at the front of its queue.
    for _ in 0..5 {
        assert_eq!(scheduler.poll(0), Status::Idle);
        assert_eq!(scheduler.axis(0).pending(), 2);
        assert_eq!(scheduler.poll(1), Status::Busy);
    }
    assert_eq!(scheduler.axis(1).pending(), 3);
    assert_eq!(scheduler.poll(0), Status::Idle);
    assert_eq!(scheduler.poll(1), Status::Busy);
    assert_eq!(scheduler.axis(1).pending(), 2);
    assert_eq!(scheduler.poll(0), Status::Busy);
    assert_eq!(scheduler.axis(0).pending(), 0);
    assert_eq!(scheduler.axis(1).pending(), 1);
}

#[test]
fn lone_marker_stalls_its_axis() {
    let mut scheduler = scheduler_of(2, 4);
    scheduler.push_job(0, Job::Sync(1)).unwrap();
    scheduler.push_job(0, burst(1)).unwrap();
    scheduler.push_job(1, burst(2)).unwrap();
    scheduler.resume();
    for _ in 0..1000 {
        assert_eq!(scheduler.poll(0), Status::Idle);
        scheduler.poll(1);
        assert_eq!(scheduler.axis(0).pending(), 2);
        assert!(!scheduler.axis(0).is_active());
    }
    assert_eq!(scheduler.axis(0).position(), 0);
    assert_eq!(scheduler.axis(1).position(), 2);
    assert_eq!(scheduler.axis(1).pending(), 0);
}

#[test]
fn marker_for_an_axis_that_does_not_exist_stalls() {
    let mut scheduler = scheduler_of(2, 4);
    scheduler.push_job(0, Job::Sync(2)).unwrap();
    scheduler.push_job(0, burst(1)).unwrap();
    scheduler.push_job(1, Job::Sync(0)).unwrap();
    scheduler.resume();
    for _ in 0..50 {
        assert_eq!(scheduler.poll(0), Status::Idle);
        assert_eq!(scheduler.poll(1), Status::Idle);
    }
    assert_eq!(scheduler.axis(0).pending(), 2);
    assert_eq!(scheduler.axis(1).pending(), 1);
}

#[test]
fn mismatched_markers_do_not_meet() {
    let mut scheduler = scheduler_of(3, 4);
    scheduler.push_job(0, Job::Sync(1)).unwrap();
    scheduler.push_job(1, Job::Sync(2)).unwrap();
    scheduler.push_job(2, Job::Sync(0)).unwrap();
    scheduler.resume();
    for _ in 0..20 {
        for axis in 0..3 {
            assert_eq!(scheduler.poll(axis), Status::Idle);
        }
    }
    for axis in 0..3 {
        assert_eq!(scheduler.axis(axis).pending(), 1);
    }
}

#[test]
fn back_to_back_markers_drain_in_one_poll() {
    let mut scheduler = scheduler_of(3, 4);
    scheduler.push_job(0, Job::Sync(1)).unwrap();
    scheduler.push_job(0, Job::Sync(2)).unwrap();
    scheduler.push_job(0, Job::Sync(1)).unwrap();
    scheduler.push_job(0, burst(1)).unwrap();
    scheduler.push_job(1, Job::Sync(0)).unwrap();
    scheduler.push_job(1, Job::Sync(0)).unwrap();
    scheduler.push_job(2, Job::Sync(0)).unwrap();
    scheduler.push_job(2, burst(1)).unwrap();
    scheduler.resume();
    assert_eq!(scheduler.poll(0), Status::Busy);
    assert_eq!(scheduler.axis(0).pending(), 0);
    assert_eq!(scheduler.axis(1).pending(), 0);
    assert_eq!(scheduler.axis(2).pending(), 1);
    assert!(scheduler.axis(0).is_active());
}

#[test]
fn draining_stops_at_the_first_marker_that_has_not_met() {
    let mut scheduler = scheduler_of(3, 4);
    scheduler.push_job(0, Job::Sync(1)).unwrap();
    scheduler.push_job(0, Job::Sync(2)).unwrap();
    scheduler.push_job(0, burst(1)).unwrap();
    scheduler.push_job(1, Job::Sync(0)).unwrap();
    scheduler.push_job(2, burst(1)).unwrap();
    scheduler.resume();
    assert_eq!(scheduler.poll(0), Status::Idle);
    assert_eq!(scheduler.axis(0).pending(), 2);
    assert_eq!(scheduler.axis(1).pending(), 0);
    assert_eq!(scheduler.axis(2).pending(), 1);
    assert_eq!(scheduler.poll(0), Status::Idle);
    assert_eq!(scheduler.axis(0).pending(), 2);
}

#[test]
fn marker_that_names_its_own_axis_passes_alone() {
    let mut scheduler = scheduler_of(2, 4);
    scheduler.push_job(0, Job::Sync(0)).unwrap();
    scheduler.push_job(0, Job::Sync(0)).unwrap();
    scheduler.push_job(0, burst(1)).unwrap();
    scheduler.resume();
    assert_eq!(scheduler.poll(0), Status::Busy);
    assert_eq!(scheduler.axis(0).pending(), 0);
}

#[test]
fn unresolved_marker_keeps_a_full_queue_intact() {
    let mut scheduler = scheduler_of(2, 2);
    scheduler.push_job(0, Job::Sync(1)).unwrap();
    scheduler.push_job(0, burst(7)).unwrap();
    scheduler.resume();
    assert_eq!(scheduler.free_space(0), 0);
    assert_eq!(scheduler.poll(0), Status::Idle);
    assert_eq!(scheduler.free_space(0), 0);
    scheduler.push_job(1, Job::Sync(0)).unwrap();
    assert_eq!(scheduler.poll(0), Status::Busy);
    assert_eq!(scheduler.axis(0).generator().remaining_pulses(), 7);
    assert_eq!(scheduler.free_space(0), 2);
}

#[test]
fn pause_lets_the_burst_in_flight_finish() {
    let mut scheduler = scheduler_of(1, 4);
    scheduler.push_job(0, burst(2)).unwrap();
    scheduler.push_job(0, burst(5)).unwrap();
    scheduler.resume();
    assert_eq!(scheduler.poll(0), Status::Busy);
    assert_eq!(scheduler.poll(0), Status::Busy);
    scheduler.pause();
    assert!(!scheduler.is_started());
    assert_eq!(scheduler.poll(0), Status::Busy);
    assert_eq!(scheduler.poll(0), Status::Busy);
    assert_eq!(scheduler.poll(0), Status::Busy);
    assert_eq!(scheduler.axis(0).position(), 2);
    for _ in 0..10 {
        assert_eq!(scheduler.poll(0), Status::Idle);
    }
    assert_eq!(scheduler.axis(0).pending(), 1);
    assert_eq!(scheduler.axis(0).position(), 2);
    scheduler.resume();
    assert_eq!(scheduler.poll(0), Status::Busy);
    assert_eq!(scheduler.axis(0).pending(), 0);
}

#[test]
fn reset_leaves_every_axis_idle_and_empty() {
    let mut scheduler = scheduler_of(2, 4);
    scheduler.push_job(0, burst(5)).unwrap();
    scheduler.push_job(0, burst(5)).unwrap();
    scheduler.push_job(1, Job::Sync(0)).unwrap();
    scheduler.resume();
    for _ in 0..4 {
        scheduler.poll(0);
        scheduler.poll(1);
    }
    assert!(scheduler.axis(0).is_active());
    assert_eq!(scheduler.axis(0).generator().remaining_pulses(), 4);
    assert_eq!(scheduler.axis(0).pending(), 1);
    scheduler.reset();
    assert!(!scheduler.is_started());
    for axis in 0..2 {
        assert_eq!(scheduler.poll(axis), Status::Idle);
        assert_eq!(scheduler.axis(axis).pending(), 0);
        assert_eq!(scheduler.axis(axis).generator().remaining_pulses(), 0);
        assert_eq!(scheduler.axis(axis).position(), 0);
        assert_eq!(scheduler.free_space(axis), 4);
        assert!(!scheduler.axis(axis).pulse_pin().is_set_high());
        assert!(!scheduler.axis(axis).enable_pin().is_set_high());
    }
}

#[test]
fn reset_under_fault_still_polls_idle() {
    let mut scheduler = scheduler_of(1, 2);
    scheduler.push_job(0, burst(3)).unwrap();
    scheduler.resume();
    scheduler.poll(0);
    scheduler.sense_fault(0, Reading::Low);
    assert_eq!(scheduler.poll(0), Status::Fault);
    scheduler.reset();
    assert_eq!(scheduler.poll(0), Status::Idle);
    assert_eq!(scheduler.axis(0).pending(), 0);
}

#[test]
fn fault_freezes_one_axis_only() {
    let mut scheduler = scheduler_of(2, 2);
    scheduler.push_job(0, burst(2)).unwrap();
    scheduler.push_job(1, burst(2)).unwrap();
    scheduler.resume();
    scheduler.sense_fault(0, Reading::Unreadable);
    for _ in 0..5 {
        assert_eq!(scheduler.poll(0), Status::Fault);
        assert_eq!(scheduler.poll(1), Status::Busy);
    }
    assert_eq!(scheduler.axis(0).pending(), 1);
    assert_eq!(scheduler.axis(0).position(), 0);
    assert_eq!(scheduler.axis(1).position(), 2);
    scheduler.sense_fault(0, Reading::High);
    assert_eq!(scheduler.poll(0), Status::Busy);
    assert_eq!(scheduler.axis(0).pending(), 0);
}
