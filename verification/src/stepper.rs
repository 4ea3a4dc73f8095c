//! One stepper axis: its lines, its pulse generator and its job queue.

use crate::generator::{GeneratorState, PulseGenerator};
pub use crate::job::{Job, Spin};
use crate::line::{DigitalInput, DigitalOutput, PwmOutput, Reading};
use crate::queue::{admitted, AxisQueue, MAX_QUEUE_CAPACITY};
use crate::status::Status;
use vstd::prelude::*;

verus! {

/// Everything an axis holds.
pub struct AxisState {
    pub generator: GeneratorState,
    /// Level of the standby line.
    pub standby: bool,
    /// Last reading of the fault line, which is active low.
    pub fault: Reading,
    /// The torque reference channel.
    pub reference: PwmOutput,
    /// Pending jobs, oldest first.
    pub jobs: Seq<Job>,
    /// How many jobs the queue admits.
    pub capacity: nat,
}

/// `jobs` without the leading markers that `epoch` releases.
pub open spec fn released(jobs: Seq<Job>, epoch: usize) -> Seq<Job>
    decreases jobs.len(),
{
    if jobs.len() > 0 && jobs[0] == Job::Sync(epoch) {
        released(jobs.drop_first(), epoch)
    } else {
        jobs
    }
}

/// The number of markers at the head of `jobs` that `epoch` releases.
pub open spec fn leading(jobs: Seq<Job>, epoch: usize) -> nat
    decreases jobs.len(),
{
    if jobs.len() > 0 && jobs[0] == Job::Sync(epoch) {
        1 + leading(jobs.drop_first(), epoch)
    } else {
        0
    }
}

/// What an epoch releases is a run of markers at the head of the queue:
/// every job taken off is a marker for `epoch`, the jobs behind them stay
/// in place, and the first job that stays is no marker for `epoch`.
pub proof fn lemma_released_is_the_rest(jobs: Seq<Job>, epoch: usize)
    ensures
        leading(jobs, epoch) <= jobs.len(),
        released(jobs, epoch) == jobs.skip(leading(jobs, epoch) as int),
        forall|at: int| 0 <= at < leading(jobs, epoch) ==> jobs[at] == Job::Sync(epoch),
        leading(jobs, epoch) < jobs.len() ==> jobs[leading(jobs, epoch) as int] != Job::Sync(
            epoch,
        ),
    decreases jobs.len(),
{
    if jobs.len() > 0 && jobs[0] == Job::Sync(epoch) {
        let rest = jobs.drop_first();
        lemma_released_is_the_rest(rest, epoch);
        assert forall|at: int| 0 <= at < leading(jobs, epoch) implies jobs[at] == Job::Sync(
            epoch,
        ) by {
            if at > 0 {
                assert(jobs[at] == rest[at - 1]);
            }
        }
    }
}

impl AxisState {
    /// An idle axis at position 0 on the lines given, not reversed, with an
    /// empty queue that admits `capacity` jobs.
    pub open spec fn fresh(
        capacity: nat,
        pulse_pin: DigitalOutput,
        dir_pin: DigitalOutput,
        enable_pin: DigitalOutput,
        standby_pin: DigitalOutput,
        fault_pin: DigitalInput,
        ref_pwm: PwmOutput,
    ) -> AxisState {
        AxisState {
            generator: GeneratorState {
                remaining: 0,
                tick_counter: 0,
                divisor: 1,
                position: 0,
                reversed: false,
                pulse: pulse_pin.high,
                direction: dir_pin.high,
                enable: enable_pin.high,
            },
            standby: standby_pin.high,
            fault: fault_pin.reading,
            reference: ref_pwm,
            jobs: Seq::<Job>::empty(),
            capacity,
        }
    }

    pub open spec fn wf(self) -> bool {
        &&& self.generator.wf()
        &&& self.jobs.len() <= self.capacity <= MAX_QUEUE_CAPACITY
    }

    /// The fault line reads low or cannot be read.
    pub open spec fn faulted(self) -> bool {
        self.fault != Reading::High
    }

    /// The axis after its generator took one tick.
    pub open spec fn ticked(self) -> AxisState {
        AxisState { generator: self.generator.ticked(self.faulted()), ..self }
    }

    /// The axis after the burst `spin` left the front of the queue and was
    /// loaded.
    pub open spec fn started(self, spin: Spin) -> AxisState {
        AxisState {
            generator: self.generator.loaded(spin),
            jobs: self.jobs.drop_first(),
            ..self
        }
    }

    /// The axis after `job` was offered to its queue.
    pub open spec fn offered(self, job: Job) -> AxisState {
        AxisState { jobs: admitted(self.jobs, self.capacity, job), ..self }
    }

    /// The queue is at capacity.
    pub open spec fn full(self) -> bool {
        self.jobs.len() == self.capacity
    }

    /// The axis after an emergency stop: the queue empty, the generator
    /// stopped.
    pub open spec fn stopped(self) -> AxisState {
        AxisState { generator: self.generator.stopped(), jobs: Seq::<Job>::empty(), ..self }
    }

    /// An idle axis looks for work: the markers that `epoch` releases leave
    /// the queue, and a burst that follows them is loaded.
    pub open spec fn refilled(self, epoch: usize) -> AxisState {
        let rest = AxisState { jobs: released(self.jobs, epoch), ..self };
        if rest.jobs.len() > 0 && rest.jobs[0] is Spin {
            rest.started(rest.jobs[0]->Spin_0)
        } else {
            rest
        }
    }

    /// The axis after one poll on its own. A fault freezes it. A burst in
    /// flight advances by one tick. An idle axis parks its outputs and looks
    /// for work.
    pub open spec fn polled(self, epoch: usize) -> AxisState {
        if self.faulted() || self.generator.active() {
            self.ticked()
        } else {
            self.ticked().refilled(epoch)
        }
    }

    /// What that poll reports: `Fault` under a fault, `Busy` while a burst is
    /// in flight or when one was just loaded, `Idle` otherwise.
    pub open spec fn poll_status(self, epoch: usize) -> Status {
        if self.faulted() {
            Status::Fault
        } else if self.generator.active() {
            Status::Busy
        } else {
            let rest = released(self.jobs, epoch);
            if rest.len() > 0 && rest[0] is Spin {
                Status::Busy
            } else {
                Status::Idle
            }
        }
    }
}

/// A stepper axis.
pub struct StepperMotor {
    generator: PulseGenerator,
    standby_pin: DigitalOutput,
    fault_pin: DigitalInput,
    ref_pwm: PwmOutput,
    jobs: AxisQueue,
}

impl StepperMotor {
    pub closed spec fn view(&self) -> AxisState {
        AxisState {
            generator: self.generator@,
            standby: self.standby_pin.high,
            fault: self.fault_pin.reading,
            reference: self.ref_pwm,
            jobs: self.jobs@,
            capacity: self.jobs.limit(),
        }
    }

    /// An idle axis on the lines given, with an empty queue of the largest
    /// capacity there is.
    pub fn new(
        pulse_pin: DigitalOutput,
        dir_pin: DigitalOutput,
        enable_pin: DigitalOutput,
        standby_pin: DigitalOutput,
        fault_pin: DigitalInput,
        ref_pwm: PwmOutput,
    ) -> (motor: Self)
        ensures
            motor@.wf(),
            motor@ == AxisState::fresh(
                MAX_QUEUE_CAPACITY as nat,
                pulse_pin,
                dir_pin,
                enable_pin,
                standby_pin,
                fault_pin,
                ref_pwm,
            ),
    {
        Self::with_capacity(
            MAX_QUEUE_CAPACITY,
            pulse_pin,
            dir_pin,
            enable_pin,
            standby_pin,
            fault_pin,
            ref_pwm,
        )
    }

    /// An idle axis on the lines given, with an empty queue that admits
    /// `capacity` jobs.
    pub fn with_capacity(
        capacity: usize,
        pulse_pin: DigitalOutput,
        dir_pin: DigitalOutput,
        enable_pin: DigitalOutput,
        standby_pin: DigitalOutput,
        fault_pin: DigitalInput,
        ref_pwm: PwmOutput,
    ) -> (motor: Self)
        requires
            capacity <= MAX_QUEUE_CAPACITY,
        ensures
            motor@.wf(),
            motor@ == AxisState::fresh(
                capacity as nat,
                pulse_pin,
                dir_pin,
                enable_pin,
                standby_pin,
                fault_pin,
                ref_pwm,
            ),
    {
        Self {
            generator: PulseGenerator::new(pulse_pin, dir_pin, enable_pin),
            standby_pin,
            fault_pin,
            ref_pwm,
            jobs: AxisQueue::new(capacity),
        }
    }

    /// Records a fresh sample of the fault line.
    pub fn sense_fault(&mut self, reading: Reading)
        ensures
            final(self)@ == (AxisState { fault: reading, ..old(self)@ }),
    {
        self.fault_pin.latch(reading);
    }

    /// Sets whether bursts loaded from now on run mirrored.
    pub fn set_reverse(&mut self, reverse: bool)
        ensures
            final(self)@ == (AxisState {
                generator: GeneratorState { reversed: reverse, ..old(self)@.generator },
                ..old(self)@
            }),
    {
        self.generator.set_reverse(reverse);
    }

    /// Wakes the driver: pulse low, direction high, standby high.
    pub fn on(&mut self)
        ensures
            final(self)@ == (AxisState {
                generator: GeneratorState {
                    pulse: false,
                    direction: true,
                    ..old(self)@.generator
                },
                standby: true,
                ..old(self)@
            }),
    {
        self.generator.set_pulse(false);
        self.generator.set_direction(true);
        self.standby_pin.set_high();
    }

    /// Puts the driver into standby.
    pub fn off(&mut self)
        ensures
            final(self)@ == (AxisState { standby: false, ..old(self)@ }),
    {
        self.standby_pin.set_low();
    }

    /// Drives the enable line high.
    pub fn enable(&mut self)
        ensures
            final(self)@ == (AxisState {
                generator: GeneratorState { enable: true, ..old(self)@.generator },
                ..old(self)@
            }),
    {
        self.generator.set_enable(true);
    }

    /// Drives the enable line low.
    pub fn disable(&mut self)
        ensures
            final(self)@ == (AxisState {
                generator: GeneratorState { enable: false, ..old(self)@.generator },
                ..old(self)@
            }),
    {
        self.generator.set_enable(false);
    }

    /// Sets the torque reference to `tork` parts of 255 of its full scale
    /// and enables the channel.
    pub fn set_tork(&mut self, tork: u8)
        ensures
            final(self)@ == (AxisState {
                reference: PwmOutput {
                    duty: old(self)@.reference.share(tork) as u32,
                    enabled: true,
                    ..old(self)@.reference
                },
                ..old(self)@
            }),
    {
        let duty = self.ref_pwm.share_of(tork);
        self.ref_pwm.enable();
        self.ref_pwm.set_duty(duty);
    }

    /// The pulse generator, for its counters and lines.
    pub fn generator(&self) -> (generator: &PulseGenerator)
        ensures
            generator@ == self@.generator,
    {
        &self.generator
    }

    /// The net count of edges emitted.
    pub fn position(&self) -> (position: i32)
        ensures
            position == self@.generator.position,
    {
        self.generator.position()
    }

    /// The number of pending jobs.
    pub fn pending(&self) -> (pending: usize)
        ensures
            pending == self@.jobs.len(),
    {
        self.jobs.len()
    }

    /// How many jobs the queue admits.
    pub fn capacity(&self) -> (capacity: usize)
        ensures
            capacity == self@.capacity,
    {
        self.jobs.capacity()
    }

    /// The pulse line, for the caller to copy to the pin.
    pub fn pulse_pin(&self) -> (line: DigitalOutput)
        ensures
            line.high == self@.generator.pulse,
    {
        self.generator.pulse()
    }

    /// The direction line, for the caller to copy to the pin.
    pub fn dir_pin(&self) -> (line: DigitalOutput)
        ensures
            line.high == self@.generator.direction,
    {
        self.generator.direction()
    }

    /// The enable line, for the caller to copy to the pin.
    pub fn enable_pin(&self) -> (line: DigitalOutput)
        ensures
            line.high == self@.generator.enable,
    {
        self.generator.enable()
    }

    /// The standby line, for the caller to copy to the pin.
    pub fn standby_pin(&self) -> (line: DigitalOutput)
        ensures
            line.high == self@.standby,
    {
        self.standby_pin
    }

    /// The torque reference channel, for the caller to copy to the timer.
    pub fn ref_pwm(&self) -> (pwm: PwmOutput)
        ensures
            pwm == self@.reference,
    {
        self.ref_pwm
    }

    /// Whether the fault line is asserted, by its last reading.
    pub fn fault_detected(&self) -> (fault: bool)
        ensures
            fault == self@.faulted(),
    {
        match self.fault_pin.is_low() {
            Some(low) => low,
            None => true,
        }
    }

    /// How many more jobs the queue admits.
    pub fn free_space(&self) -> (free: usize)
        requires
            self@.wf(),
        ensures
            free == self@.capacity - self@.jobs.len(),
    {
        self.jobs.free_space()
    }

    /// Offers a job to the queue. A full queue stays as it is and hands the
    /// job back.
    pub fn push_job(&mut self, job: Job) -> (pushed: Result<(), Job>)
        requires
            old(self)@.wf(),
        ensures
            final(self)@.wf(),
            final(self)@ == old(self)@.offered(job),
            match pushed {
                Ok(_) => !old(self)@.full(),
                Err(back) => old(self)@.full() && back == job && final(self)@ == old(self)@,
            },
    {
        self.jobs.push_back(job)
    }

    /// Whether a burst is in flight.
    pub fn is_active(&self) -> (active: bool)
        ensures
            active == self@.generator.active(),
    {
        self.generator.is_active()
    }

    /// One tick of the generator, under the fault line as last read.
    pub(crate) fn tick(&mut self) -> (status: Status)
        requires
            old(self)@.wf(),
        ensures
            final(self)@.wf(),
            final(self)@ == old(self)@.ticked(),
            status == old(self)@.generator.tick_status(old(self)@.faulted()),
    {
        let fault = self.fault_detected();
        self.generator.tick(fault)
    }

    /// The oldest pending job, left in place.
    pub(crate) fn next_job(&self) -> (job: Option<Job>)
        ensures
            job == if self@.jobs.len() == 0 {
                None
            } else {
                Some(self@.jobs[0])
            },
    {
        self.jobs.front()
    }

    /// Takes the oldest pending job off the queue.
    pub(crate) fn take_job(&mut self) -> (job: Option<Job>)
        requires
            old(self)@.wf(),
        ensures
            final(self)@.wf(),
            match job {
                Some(front) => old(self)@.jobs.len() > 0 && front == old(self)@.jobs[0]
                    && final(self)@ == (AxisState {
                    jobs: old(self)@.jobs.drop_first(),
                    ..old(self)@
                }),
                None => old(self)@.jobs.len() == 0 && final(self)@ == old(self)@,
            },
    {
        self.jobs.pop_front()
    }

    /// Puts a job back before the pending ones.
    pub(crate) fn return_job(&mut self, job: Job) -> (pushed: Result<(), Job>)
        requires
            old(self)@.wf(),
        ensures
            final(self)@.wf(),
            match pushed {
                Ok(_) => old(self)@.jobs.len() < old(self)@.capacity && final(self)@ == (AxisState {
                    jobs: seq![job] + old(self)@.jobs,
                    ..old(self)@
                }),
                Err(back) => old(self)@.jobs.len() == old(self)@.capacity && back == job
                    && final(self)@ == old(self)@,
            },
    {
        self.jobs.push_front(job)
    }

    /// Takes the burst at the front of the queue and loads it.
    pub(crate) fn start(&mut self, spin: Spin)
        requires
            old(self)@.wf(),
            old(self)@.jobs.len() > 0,
            old(self)@.jobs[0] == Job::Spin(spin),
        ensures
            final(self)@.wf(),
            final(self)@ == old(self)@.started(spin),
    {
        self.jobs.pop_front();
        self.generator.load(spin);
    }

    /// Emergency stop: drops the pending jobs and the burst in flight.
    pub fn reset(&mut self)
        requires
            old(self)@.wf(),
        ensures
            final(self)@.wf(),
            final(self)@ == old(self)@.stopped(),
    {
        self.jobs.clear();
        self.generator.reset();
    }

    /// One tick of the axis on its own.
    ///
    /// Under a fault, by the last reading of the fault line, nothing changes
    /// and the report is `Fault`. A burst in flight advances by one tick and
    /// reports `Busy`. An idle axis parks its pulse and enable lines and
    /// then works through the front of its queue: markers whose value equals
    /// `epoch` are taken off, a burst behind them is taken off and loaded
    /// (`Busy`), and any other marker, or an empty queue, ends the poll
    /// (`Idle`). An axis on its own knows no peers, so its markers wait for
    /// an epoch that the caller supplies; axes under a `Scheduler` meet each
    /// other instead.
    pub fn poll(&mut self, epoch: usize) -> (status: Status)
        requires
            old(self)@.wf(),
        ensures
            final(self)@.wf(),
            final(self)@ == old(self)@.polled(epoch),
            status == old(self)@.poll_status(epoch),
    {
        let fault = self.fault_detected();
        let status = self.generator.tick(fault);
        match status {
            Status::Idle => {},
            _ => {
                return status;
            },
        }
        let ghost parked = self@;
        loop
            invariant
                self@.wf(),
                !old(self)@.faulted(),
                !old(self)@.generator.active(),
                parked == old(self)@.ticked(),
                self@ == (AxisState { jobs: self@.jobs, ..parked }),
                released(self@.jobs, epoch) == released(parked.jobs, epoch),
            decreases self@.jobs.len(),
        {
            match self.jobs.front() {
                Some(Job::Spin(spin)) => {
                    self.start(spin);
                    return Status::Busy;
                },
                Some(Job::Sync(marker)) => {
                    if marker != epoch {
                        return Status::Idle;
                    }
                    self.jobs.pop_front();
                },
                None => {
                    return Status::Idle;
                },
            }
        }
    }
}

} // verus!
