//! A dual DC motor driver: two speed channels with a phase line each, a
//! shared torque reference, enable, standby and an active-low fault line.

use crate::line::{DigitalInput, DigitalOutput, PwmOutput, Reading};
use crate::status::Status;
use vstd::prelude::*;

verus! {

/// One of the two motors of the driver.
#[derive(Clone, Copy, Debug, PartialEq, Eq, Structural)]
pub enum DCMotor {
    MotorA,
    MotorB,
}

/// What a motor controller holds.
pub struct MotorState {
    /// Level of the phase line of motor A.
    pub phase_a: bool,
    /// Level of the phase line of motor B.
    pub phase_b: bool,
    /// The torque reference channel.
    pub reference: PwmOutput,
    /// The speed channel of motor A.
    pub speed_a: PwmOutput,
    /// The speed channel of motor B.
    pub speed_b: PwmOutput,
    /// Level of the enable line.
    pub enable: bool,
    /// Level of the standby line.
    pub standby: bool,
    /// Last reading of the fault line.
    pub fault: Reading,
    /// Full-scale duty of the speed channels, taken from channel A.
    pub max_duty: u32,
}

/// The magnitude of a speed command.
pub open spec fn magnitude(val: i8) -> int {
    if val < 0 {
        -(val as int)
    } else {
        val as int
    }
}

/// The duty for a speed command on a channel with full scale `max_duty`:
/// the magnitude's share of 127, rounded down. A command of 127 or -127
/// gives full scale, the one command beyond them, -128, a little more. A
/// duty that a `u32` cannot hold is cut to `u32::MAX`.
pub open spec fn speed_duty(max_duty: u32, val: i8) -> u32 {
    let duty = max_duty * magnitude(val) / 127;
    if duty > u32::MAX {
        u32::MAX
    } else {
        duty as u32
    }
}

impl MotorState {
    /// The state after a speed command for motor A: the duty follows the
    /// magnitude, the phase line is high for a negative command.
    pub open spec fn commanded_a(self, val: i8) -> MotorState {
        MotorState {
            speed_a: PwmOutput { duty: speed_duty(self.max_duty, val), ..self.speed_a },
            phase_a: val < 0,
            ..self
        }
    }

    /// The state after a speed command for motor B: the duty follows the
    /// magnitude, the phase line is high for a positive command.
    pub open spec fn commanded_b(self, val: i8) -> MotorState {
        MotorState {
            speed_b: PwmOutput { duty: speed_duty(self.max_duty, val), ..self.speed_b },
            phase_b: val > 0,
            ..self
        }
    }
}

/// A dual DC motor driver.
pub struct MotorController {
    phase_pins: (DigitalOutput, DigitalOutput),
    ref_pwm: PwmOutput,
    speed_pwm: (PwmOutput, PwmOutput),
    enable_pin: DigitalOutput,
    standby_pin: DigitalOutput,
    fault_pin: DigitalInput,
    max_duty: u32,
}

impl MotorController {
    pub closed spec fn view(&self) -> MotorState {
        MotorState {
            phase_a: self.phase_pins.0.high,
            phase_b: self.phase_pins.1.high,
            reference: self.ref_pwm,
            speed_a: self.speed_pwm.0,
            speed_b: self.speed_pwm.1,
            enable: self.enable_pin.high,
            standby: self.standby_pin.high,
            fault: self.fault_pin.reading,
            max_duty: self.max_duty,
        }
    }

    pub fn new(
        ref_pwm: PwmOutput,
        speed_pwm: (PwmOutput, PwmOutput),
        phase_pins: (DigitalOutput, DigitalOutput),
        enable_pin: DigitalOutput,
        standby_pin: DigitalOutput,
        fault_pin: DigitalInput,
    ) -> (controller: Self)
        ensures
            controller@ == (MotorState {
                phase_a: phase_pins.0.high,
                phase_b: phase_pins.1.high,
                reference: ref_pwm,
                speed_a: speed_pwm.0,
                speed_b: speed_pwm.1,
                enable: enable_pin.high,
                standby: standby_pin.high,
                fault: fault_pin.reading,
                max_duty: speed_pwm.0.max_duty,
            }),
    {
        let max_duty = speed_pwm.0.get_max_duty();
        Self { speed_pwm, phase_pins, ref_pwm, enable_pin, standby_pin, fault_pin, max_duty }
    }

    /// Whether the driver reports a fault: its fault line reads low. The
    /// line must have been read.
    pub fn fault_detected(&self) -> (fault: bool)
        requires
            self@.fault != Reading::Unreadable,
        ensures
            fault == (self@.fault == Reading::Low),
    {
        match self.fault_pin.is_low() {
            Some(low) => low,
            None => false,
        }
    }

    /// Wakes the driver: both speed channels enabled at duty 0, standby
    /// high.
    pub fn on(&mut self)
        ensures
            final(self)@ == (MotorState {
                speed_a: PwmOutput { duty: 0, enabled: true, ..old(self)@.speed_a },
                speed_b: PwmOutput { duty: 0, enabled: true, ..old(self)@.speed_b },
                standby: true,
                ..old(self)@
            }),
    {
        self.speed_pwm.0.set_duty(0);
        self.speed_pwm.0.enable();
        self.speed_pwm.1.set_duty(0);
        self.speed_pwm.1.enable();
        self.standby_pin.set_high();
    }

    /// Puts the driver into standby.
    pub fn off(&mut self)
        ensures
            final(self)@ == (MotorState { standby: false, ..old(self)@ }),
    {
        self.standby_pin.set_low();
    }

    pub fn enable(&mut self)
        ensures
            final(self)@ == (MotorState { enable: true, ..old(self)@ }),
    {
        self.enable_pin.set_high();
    }

    pub fn disable(&mut self)
        ensures
            final(self)@ == (MotorState { enable: false, ..old(self)@ }),
    {
        self.enable_pin.set_low();
    }

    /// Sets the torque reference to `tork` parts of 255 of its full scale
    /// and enables the channel.
    pub fn set_tork(&mut self, tork: u8)
        ensures
            final(self)@ == (MotorState {
                reference: PwmOutput {
                    duty: old(self)@.reference.share(tork) as u32,
                    enabled: true,
                    ..old(self)@.reference
                },
                ..old(self)@
            }),
    {
        let duty = self.ref_pwm.share_of(tork);
        self.ref_pwm.set_duty(duty);
        self.ref_pwm.enable();
    }

    /// Commands motor `ch` to speed `val`: the sign selects the direction,
    /// the magnitude the duty. Reports `Idle` for a command of 0 and `Busy`
    /// for any other.
    pub fn set_speed(&mut self, ch: DCMotor, val: i8) -> (status: Status)
        ensures
            final(self)@ == match ch {
                DCMotor::MotorA => old(self)@.commanded_a(val),
                DCMotor::MotorB => old(self)@.commanded_b(val),
            },
            status == if val == 0 {
                Status::Idle
            } else {
                Status::Busy
            },
    {
        let wide: i16 = val as i16;
        let size: u64 = if wide < 0 {
            (-wide) as u64
        } else {
            wide as u64
        };
        assert(self.max_duty * size <= 0xffff_ffff * 128) by (nonlinear_arith)
            requires
                self.max_duty <= 0xffff_ffff,
                size <= 128,
        ;
        let scaled: u64 = self.max_duty as u64 * size / 127;
        let duty: u32 = if scaled > u32::MAX as u64 {
            u32::MAX
        } else {
            scaled as u32
        };
        match ch {
            DCMotor::MotorA => {
                self.speed_pwm.0.set_duty(duty);
                self.phase_pins.0.set(val < 0);
            },
            DCMotor::MotorB => {
                self.speed_pwm.1.set_duty(duty);
                self.phase_pins.1.set(val > 0);
            },
        }
        if val == 0 {
            Status::Idle
        } else {
            Status::Busy
        }
    }

    /// The two speed channels, A first, for the caller to copy to the timer.
    pub fn speed_pwm(&self) -> (channels: (PwmOutput, PwmOutput))
        ensures
            channels.0 == self@.speed_a,
            channels.1 == self@.speed_b,
    {
        self.speed_pwm
    }

    /// The two phase lines, A first, for the caller to copy to the pins.
    pub fn phase_pins(&self) -> (lines: (DigitalOutput, DigitalOutput))
        ensures
            lines.0.high == self@.phase_a,
            lines.1.high == self@.phase_b,
    {
        self.phase_pins
    }

    /// The torque reference channel, for the caller to copy to the timer.
    pub fn ref_pwm(&self) -> (pwm: PwmOutput)
        ensures
            pwm == self@.reference,
    {
        self.ref_pwm
    }

    /// The enable line, for the caller to copy to the pin.
    pub fn enable_pin(&self) -> (line: DigitalOutput)
        ensures
            line.high == self@.enable,
    {
        self.enable_pin
    }

    /// The standby line, for the caller to copy to the pin.
    pub fn standby_pin(&self) -> (line: DigitalOutput)
        ensures
            line.high == self@.standby,
    {
        self.standby_pin
    }

    /// Records a fresh sample of the fault line.
    pub fn sense_fault(&mut self, reading: Reading)
        ensures
            final(self)@ == (MotorState { fault: reading, ..old(self)@ }),
    {
        self.fault_pin.latch(reading);
    }
}

} // verus!
