//! Images of the hardware lines an axis or a switch is wired to.
//!
//! An output image records the level last driven; an input image records
//! the level last sampled. Nothing here touches a pin.

use vstd::prelude::*;

verus! {

/// A push-pull output, as the level last driven onto it.
#[derive(Clone, Copy, Debug, PartialEq, Eq, Structural)]
pub struct DigitalOutput {
    /// `true` while the line is driven high.
    pub high: bool,
}

impl DigitalOutput {
    pub fn new(high: bool) -> (line: Self)
        ensures
            line.high == high,
    {
        Self { high }
    }

    pub fn set(&mut self, high: bool)
        ensures
            final(self).high == high,
    {
        self.high = high;
    }

    pub fn set_high(&mut self)
        ensures
            final(self).high,
    {
        self.high = true;
    }

    pub fn set_low(&mut self)
        ensures
            !final(self).high,
    {
        self.high = false;
    }

    pub fn is_set_high(&self) -> (high: bool)
        ensures
            high == self.high,
    {
        self.high
    }
}

/// What one sample of an input line gave.
#[derive(Clone, Copy, Debug, PartialEq, Eq, Structural)]
pub enum Reading {
    Low,
    High,
    /// The line could not be read.
    Unreadable,
}

/// A sense input, as the reading last taken from it.
#[derive(Clone, Copy, Debug, PartialEq, Eq, Structural)]
pub struct DigitalInput {
    pub reading: Reading,
}

impl DigitalInput {
    pub fn new(reading: Reading) -> (line: Self)
        ensures
            line.reading == reading,
    {
        Self { reading }
    }

    /// Records a fresh sample.
    pub fn latch(&mut self, reading: Reading)
        ensures
            final(self).reading == reading,
    {
        self.reading = reading;
    }

    /// Whether the line read low, or `None` where it could not be read.
    pub fn is_low(&self) -> (low: Option<bool>)
        ensures
            self.reading == Reading::Low ==> low == Some(true),
            self.reading == Reading::High ==> low == Some(false),
            self.reading == Reading::Unreadable ==> low.is_none(),
    {
        match self.reading {
            Reading::Low => Some(true),
            Reading::High => Some(false),
            Reading::Unreadable => None,
        }
    }
}

/// A PWM channel, as the duty last written to it.
#[derive(Clone, Copy, Debug, PartialEq, Eq, Structural)]
pub struct PwmOutput {
    /// The duty that stands for a line held high all the time.
    pub max_duty: u32,
    pub duty: u32,
    pub enabled: bool,
}

impl PwmOutput {
    /// A disabled channel with duty 0.
    pub fn new(max_duty: u32) -> (pwm: Self)
        ensures
            pwm == (PwmOutput { max_duty, duty: 0, enabled: false }),
    {
        Self { max_duty, duty: 0, enabled: false }
    }

    pub fn get_max_duty(&self) -> (max: u32)
        ensures
            max == self.max_duty,
    {
        self.max_duty
    }

    pub fn set_duty(&mut self, duty: u32)
        ensures
            *final(self) == (PwmOutput { duty, ..*old(self) }),
    {
        self.duty = duty;
    }

    pub fn enable(&mut self)
        ensures
            *final(self) == (PwmOutput { enabled: true, ..*old(self) }),
    {
        self.enabled = true;
    }

    pub fn disable(&mut self)
        ensures
            *final(self) == (PwmOutput { enabled: false, ..*old(self) }),
    {
        self.enabled = false;
    }

    /// The duty for `part` parts of 255 of full scale, rounded down.
    pub open spec fn share(&self, part: u8) -> int {
        self.max_duty * part / 255
    }

    /// Computes `share(part)`, which never exceeds `max_duty`.
    pub fn share_of(&self, part: u8) -> (duty: u32)
        ensures
            duty == self.share(part),
            duty <= self.max_duty,
    {
        assert(self.max_duty * part <= 0xffff_ffff * 0xff && self.max_duty * part / 255
            <= self.max_duty) by (nonlinear_arith)
            requires
                self.max_duty <= 0xffff_ffff,
                part <= 0xff,
        ;
        let wide: u64 = self.max_duty as u64 * part as u64 / 255;
        wide as u32
    }
}

} // verus!
