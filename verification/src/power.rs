//! A power switch with an enable line and an active-low fault sense line.

use crate::line::{DigitalInput, DigitalOutput, Reading};
use vstd::prelude::*;

verus! {

/// What a power switch holds.
pub struct SwitchState {
    /// Level of the enable line.
    pub enable: bool,
    /// Last reading of the sense line.
    pub sense: Reading,
}

/// A power switch.
pub struct PowerSwitch {
    enable_pin: DigitalOutput,
    sense_pin: DigitalInput,
}

impl PowerSwitch {
    pub closed spec fn view(&self) -> SwitchState {
        SwitchState { enable: self.enable_pin.high, sense: self.sense_pin.reading }
    }

    pub fn new(enable_pin: DigitalOutput, sense_pin: DigitalInput) -> (switch: Self)
        ensures
            switch@ == (SwitchState { enable: enable_pin.high, sense: sense_pin.reading }),
    {
        Self { enable_pin, sense_pin }
    }

    /// Whether the switch reports a fault: the sense line reads low, or
    /// cannot be read.
    pub fn fault_detected(&self) -> (fault: bool)
        ensures
            fault == (self@.sense != Reading::High),
    {
        match self.sense_pin.is_low() {
            Some(low) => low,
            None => true,
        }
    }

    /// Switches the load on.
    pub fn on(&mut self)
        ensures
            final(self)@ == (SwitchState { enable: true, ..old(self)@ }),
    {
        self.enable_pin.set_high();
    }

    /// Switches the load off.
    pub fn off(&mut self)
        ensures
            final(self)@ == (SwitchState { enable: false, ..old(self)@ }),
    {
        self.enable_pin.set_low();
    }

    /// Records a fresh sample of the sense line.
    pub fn sense(&mut self, reading: Reading)
        ensures
            final(self)@ == (SwitchState { sense: reading, ..old(self)@ }),
    {
        self.sense_pin.latch(reading);
    }

    /// The enable line, for the caller to copy to the pin.
    pub fn enable_pin(&self) -> (line: DigitalOutput)
        ensures
            line.high == self@.enable,
    {
        self.enable_pin
    }
}

} // verus!
