//! The step clock of one axis: a software divider that turns a loaded pulse
//! burst into one rising edge every `divisor + 1` ticks.

use crate::job::Spin;
use crate::line::DigitalOutput;
use crate::status::Status;
use vstd::prelude::*;
use vstd::wrapping::i32_specs;

verus! {

/// The highest feed-rate code; it selects the shortest divisor.
pub const MAX_FEED_CODE: u8 = 255;

/// The run state of a pulse generator and the levels it drives.
pub struct GeneratorState {
    /// Steps still to emit; the sign is the direction, 0 means idle.
    pub remaining: int,
    /// Ticks counted since the burst was loaded or the last edge.
    pub tick_counter: nat,
    /// Ticks that pass without an edge before each edge.
    pub divisor: nat,
    /// Net count of edges emitted, +1 or -1 each, wrapping like an `i32`.
    pub position: i32,
    /// Whether loaded bursts run mirrored.
    pub reversed: bool,
    /// Level of the pulse line.
    pub pulse: bool,
    /// Level of the direction line.
    pub direction: bool,
    /// Level of the enable line.
    pub enable: bool,
}

/// The divisor a feed-rate code selects: the distance of the code from
/// `MAX_FEED_CODE`, but never less than 1, so that the highest codes all
/// select the shortest divisor and every burst makes progress.
pub open spec fn divisor_of(feed_rate: u8) -> nat {
    if MAX_FEED_CODE - feed_rate < 1 {
        1
    } else {
        (MAX_FEED_CODE - feed_rate) as nat
    }
}

impl GeneratorState {
    pub open spec fn wf(self) -> bool {
        &&& 1 <= self.divisor <= 255
        &&& self.tick_counter <= self.divisor
        &&& -0x8000_0000 <= self.remaining <= 0x8000_0000
    }

    /// A burst is in flight.
    pub open spec fn active(self) -> bool {
        self.remaining != 0
    }

    /// +1 while stepping forward, -1 while stepping backward, 0 when idle.
    pub open spec fn sign(self) -> int {
        if self.remaining > 0 {
            1
        } else if self.remaining < 0 {
            -1
        } else {
            0
        }
    }

    /// The next tick emits an edge, unless a fault holds it off.
    pub open spec fn edge_due(self) -> bool {
        self.active() && self.tick_counter >= self.divisor
    }

    /// The state after `spin` is loaded: the counter restarts, the divisor
    /// follows the feed rate, the step count is taken over (negated on a
    /// reversed axis), the direction line is low for a positive count and
    /// high otherwise, the pulse line is low and the enable line high.
    pub open spec fn loaded(self, spin: Spin) -> GeneratorState {
        let remaining = if self.reversed {
            -(spin.pulses as int)
        } else {
            spin.pulses as int
        };
        GeneratorState {
            remaining,
            tick_counter: 0,
            divisor: divisor_of(spin.feed_rate),
            direction: remaining <= 0,
            pulse: false,
            enable: true,
            ..self
        }
    }

    /// The state after one tick. With `fault` set nothing changes. An active
    /// generator either emits an edge (pulse high, one step taken off the
    /// count and added to the position, counter back to 0) or counts the
    /// tick with the pulse low. An idle generator parks its outputs: pulse
    /// low, enable low.
    pub open spec fn ticked(self, fault: bool) -> GeneratorState {
        if fault {
            self
        } else if self.edge_due() {
            GeneratorState {
                remaining: self.remaining - self.sign(),
                position: i32_specs::wrapping_add(self.position, self.sign() as i32),
                tick_counter: 0,
                pulse: true,
                ..self
            }
        } else if self.active() {
            GeneratorState { tick_counter: self.tick_counter + 1, pulse: false, ..self }
        } else {
            GeneratorState { pulse: false, enable: false, ..self }
        }
    }

    /// What one tick reports.
    pub open spec fn tick_status(self, fault: bool) -> Status {
        if fault {
            Status::Fault
        } else if self.active() {
            Status::Busy
        } else {
            Status::Idle
        }
    }

    /// The state after an emergency stop: nothing in flight, counters and
    /// position at zero, the divisor at its minimum, pulse and enable low.
    /// The mirroring flag and the direction line stay.
    pub open spec fn stopped(self) -> GeneratorState {
        GeneratorState {
            remaining: 0,
            tick_counter: 0,
            divisor: 1,
            position: 0,
            pulse: false,
            enable: false,
            ..self
        }
    }

    /// The state after `ticks` ticks in a row without a fault.
    pub open spec fn run(self, ticks: nat) -> GeneratorState
        decreases ticks,
    {
        if ticks == 0 {
            self
        } else {
            self.run((ticks - 1) as nat).ticked(false)
        }
    }

    /// How far into a burst a generator is: the state of `self`, freshly
    /// loaded, once `edges` edges are out and `ticks` further ticks have
    /// been counted towards the next one.
    pub open spec fn advanced(self, edges: nat, ticks: nat) -> GeneratorState {
        GeneratorState {
            remaining: self.remaining - self.travel(edges),
            position: (self.position + self.travel(edges)) as i32,
            tick_counter: ticks,
            pulse: edges > 0 && ticks == 0,
            ..self
        }
    }

    /// The signed distance that `edges` edges of the burst in flight cover.
    pub open spec fn travel(self, edges: nat) -> int {
        if self.remaining > 0 {
            edges as int
        } else if self.remaining < 0 {
            -(edges as int)
        } else {
            0
        }
    }

    /// The number of steps of the burst in flight.
    pub open spec fn steps(self) -> nat {
        if self.remaining < 0 {
            (-self.remaining) as nat
        } else {
            self.remaining as nat
        }
    }

    /// The burst in flight does not carry the position out of the range of
    /// an `i32`.
    pub open spec fn stays_in_range(self) -> bool {
        i32::MIN <= self.position + self.remaining <= i32::MAX
    }

    /// The number of edges emitted over the first `ticks` ticks from here,
    /// with no fault sampled: one for each tick that finds an edge due.
    pub open spec fn edges_within(self, ticks: nat) -> nat
        decreases ticks,
    {
        if ticks == 0 {
            0
        } else if self.run((ticks - 1) as nat).edge_due() {
            self.edges_within((ticks - 1) as nat) + 1
        } else {
            self.edges_within((ticks - 1) as nat)
        }
    }

    /// The number of ticks a burst in flight still takes: a full period of
    /// `divisor + 1` ticks for each remaining step, less the ticks already
    /// counted towards the next edge.
    pub open spec fn ticks_left(self) -> nat {
        if self.active() {
            (self.steps() * (self.divisor + 1) - self.tick_counter) as nat
        } else {
            0
        }
    }
}

/// The pulse generator of one axis.
pub struct PulseGenerator {
    remaining_pulses: i64,
    tick_counter: u8,
    divisor: u8,
    position: i32,
    reversed: bool,
    pulse: DigitalOutput,
    direction: DigitalOutput,
    enable: DigitalOutput,
}

impl PulseGenerator {
    pub closed spec fn view(&self) -> GeneratorState {
        GeneratorState {
            remaining: self.remaining_pulses as int,
            tick_counter: self.tick_counter as nat,
            divisor: self.divisor as nat,
            position: self.position,
            reversed: self.reversed,
            pulse: self.pulse.high,
            direction: self.direction.high,
            enable: self.enable.high,
        }
    }

    /// An idle generator at position 0 that drives the three lines given,
    /// not reversed, with the divisor at its minimum.
    pub fn new(pulse: DigitalOutput, direction: DigitalOutput, enable: DigitalOutput) -> (generator:
        Self)
        ensures
            generator@.wf(),
            generator@ == (GeneratorState {
                remaining: 0,
                tick_counter: 0,
                divisor: 1,
                position: 0,
                reversed: false,
                pulse: pulse.high,
                direction: direction.high,
                enable: enable.high,
            }),
    {
        Self {
            remaining_pulses: 0,
            tick_counter: 0,
            divisor: 1,
            position: 0,
            reversed: false,
            pulse,
            direction,
            enable,
        }
    }

    /// Sets whether bursts loaded from now on run mirrored.
    pub fn set_reverse(&mut self, reverse: bool)
        ensures
            final(self)@ == (GeneratorState { reversed: reverse, ..old(self)@ }),
    {
        self.reversed = reverse;
    }

    /// Drives the pulse line.
    pub fn set_pulse(&mut self, high: bool)
        ensures
            final(self)@ == (GeneratorState { pulse: high, ..old(self)@ }),
    {
        self.pulse.set(high);
    }

    /// Drives the direction line.
    pub fn set_direction(&mut self, high: bool)
        ensures
            final(self)@ == (GeneratorState { direction: high, ..old(self)@ }),
    {
        self.direction.set(high);
    }

    /// Drives the enable line.
    pub fn set_enable(&mut self, high: bool)
        ensures
            final(self)@ == (GeneratorState { enable: high, ..old(self)@ }),
    {
        self.enable.set(high);
    }

    /// The net count of edges emitted.
    pub fn position(&self) -> (position: i32)
        ensures
            position == self@.position,
    {
        self.position
    }

    /// The steps still to emit, signed by direction.
    pub fn remaining_pulses(&self) -> (remaining: i64)
        ensures
            remaining == self@.remaining,
    {
        self.remaining_pulses
    }

    /// The ticks counted towards the next edge.
    pub fn tick_counter(&self) -> (ticks: u8)
        ensures
            ticks == self@.tick_counter,
    {
        self.tick_counter
    }

    /// The divisor in force.
    pub fn divisor(&self) -> (divisor: u8)
        ensures
            divisor == self@.divisor,
    {
        self.divisor
    }

    pub fn is_reversed(&self) -> (reversed: bool)
        ensures
            reversed == self@.reversed,
    {
        self.reversed
    }

    /// The pulse line, for the caller to copy to the pin.
    pub fn pulse(&self) -> (line: DigitalOutput)
        ensures
            line.high == self@.pulse,
    {
        self.pulse
    }

    /// The direction line, for the caller to copy to the pin.
    pub fn direction(&self) -> (line: DigitalOutput)
        ensures
            line.high == self@.direction,
    {
        self.direction
    }

    /// The enable line, for the caller to copy to the pin.
    pub fn enable(&self) -> (line: DigitalOutput)
        ensures
            line.high == self@.enable,
    {
        self.enable
    }

    /// Whether a burst is in flight.
    pub fn is_active(&self) -> (active: bool)
        ensures
            active == self@.active(),
    {
        self.remaining_pulses != 0
    }

    /// Loads a burst, replacing whatever was in flight.
    pub fn load(&mut self, spin: Spin)
        requires
            old(self)@.wf(),
        ensures
            final(self)@.wf(),
            final(self)@ == old(self)@.loaded(spin),
    {
        let span: u8 = MAX_FEED_CODE.saturating_sub(spin.feed_rate);
        let pulses: i64 = spin.pulses as i64;
        self.tick_counter = 0;
        self.divisor = if span < 1 {
            1
        } else {
            span
        };
        self.remaining_pulses = if self.reversed {
            -pulses
        } else {
            pulses
        };
        self.direction.set(self.remaining_pulses <= 0);
        self.pulse.set_low();
        self.enable.set_high();
    }

    /// Advances the generator by one tick; `fault` is the fault line as
    /// sampled for this tick.
    pub fn tick(&mut self, fault: bool) -> (status: Status)
        requires
            old(self)@.wf(),
        ensures
            final(self)@.wf(),
            final(self)@ == old(self)@.ticked(fault),
            status == old(self)@.tick_status(fault),
    {
        if fault {
            return Status::Fault;
        }
        if self.remaining_pulses == 0 {
            self.pulse.set_low();
            self.enable.set_low();
            return Status::Idle;
        }
        if self.tick_counter >= self.divisor {
            let delta: i32 = if self.remaining_pulses > 0 {
                1
            } else {
                -1
            };
            self.position = self.position.wrapping_add(delta);
            self.remaining_pulses = self.remaining_pulses - delta as i64;
            self.tick_counter = 0;
            self.pulse.set_high();
        } else {
            self.tick_counter = self.tick_counter + 1;
            self.pulse.set_low();
        }
        Status::Busy
    }

    /// Emergency stop: drops the burst in flight and zeroes the run state.
    pub fn reset(&mut self)
        ensures
            final(self)@.wf(),
            final(self)@ == old(self)@.stopped(),
    {
        self.remaining_pulses = 0;
        self.tick_counter = 0;
        self.divisor = 1;
        self.position = 0;
        self.pulse.set_low();
        self.enable.set_low();
    }
}

/// The position moves with edges only. A tick changes the position just
/// when it emits an edge, and then by one step in the direction of the
/// burst, wrapping like an `i32`; loading a burst leaves the position as
/// it is.
pub proof fn lemma_position_moves_with_edges(state: GeneratorState, fault: bool, spin: Spin)
    ensures
        !fault && state.edge_due() ==> state.ticked(fault).position == i32_specs::wrapping_add(
            state.position,
            state.sign() as i32,
        ),
        fault || !state.edge_due() ==> state.ticked(fault).position == state.position,
        state.loaded(spin).position == state.position,
{
}

/// Timing of a burst. After a burst of `P` steps is loaded with divisor
/// `D`, and while no fault is sampled, the generator emits an edge on the
/// ticks `D + 1`, `2 (D + 1)`, ..., `|P| (D + 1)` and on no other: each edge
/// comes after exactly `D` ticks without one, and `edges` full periods plus
/// up to `D` ticks have seen `edges` edges. The pulse line is high after a
/// tick with an edge and low after every other tick. With each edge the
/// position moves by one in the direction of the burst and the count of
/// remaining steps moves by one towards zero, so that with the last edge
/// the position has moved by `P` and the generator is idle.
///
/// Stated for bursts that keep the position within the range of an `i32`.
pub proof fn lemma_burst_timing(before: GeneratorState, spin: Spin, edges: nat, ticks: nat)
    requires
        before.wf(),
        before.loaded(spin).stays_in_range(),
        edges <= before.loaded(spin).steps(),
        ticks <= before.loaded(spin).divisor,
        edges == before.loaded(spin).steps() ==> ticks == 0,
    ensures
        before.loaded(spin).run(edges * (before.loaded(spin).divisor + 1) + ticks)
            == before.loaded(spin).advanced(edges, ticks),
        before.loaded(spin).edges_within(edges * (before.loaded(spin).divisor + 1) + ticks)
            == edges,
        before.loaded(spin).advanced(edges, ticks).wf(),
        before.loaded(spin).advanced(edges, ticks).active() <==> edges < before.loaded(
            spin,
        ).steps(),
    decreases edges, ticks,
{
    let start = before.loaded(spin);
    let period = start.divisor + 1;
    if ticks > 0 {
        lemma_burst_timing(before, spin, edges, (ticks - 1) as nat);
    } else if edges > 0 {
        lemma_burst_timing(before, spin, (edges - 1) as nat, start.divisor);
        assert((edges - 1) * period + start.divisor == edges * period - 1) by (nonlinear_arith)
            requires
                period == start.divisor + 1,
        ;
    } else {
        assert(edges * period == 0) by (nonlinear_arith)
            requires
                edges == 0,
        ;
    }
}

/// A finished burst leaves the generator parked. From the tick after the
/// last edge on, and while no fault is sampled, the generator is idle with
/// pulse and enable low, no further edge is emitted, so that the burst has
/// emitted as many edges as it has steps, and the position stays where the
/// burst took it: as far from where it was loaded as the burst has steps,
/// in the direction of its sign, or against it on a reversed axis.
///
/// Stated for bursts that keep the position within the range of an `i32`.
pub proof fn lemma_burst_completes(before: GeneratorState, spin: Spin, further: nat)
    requires
        before.wf(),
        before.loaded(spin).stays_in_range(),
    ensures
        ({
            let start = before.loaded(spin);
            let done = start.run(start.steps() * (start.divisor + 1) + 1 + further);
            &&& start.edges_within(start.steps() * (start.divisor + 1) + 1 + further)
                == start.steps()
            &&& start.steps() == if spin.pulses < 0 {
                -spin.pulses
            } else {
                spin.pulses as int
            }
            &&& !done.active()
            &&& done.position == before.position + start.remaining
            &&& start.remaining == if before.reversed {
                -spin.pulses
            } else {
                spin.pulses as int
            }
            &&& !done.pulse
            &&& !done.enable
            &&& done == (GeneratorState {
                remaining: 0,
                position: done.position,
                tick_counter: 0,
                pulse: false,
                enable: false,
                ..start
            })
        }),
    decreases further,
{
    if further == 0 {
        lemma_burst_timing(before, spin, before.loaded(spin).steps(), 0);
    } else {
        lemma_burst_completes(before, spin, (further - 1) as nat);
    }
}

/// Every tick without a fault brings a burst in flight one tick closer to
/// its end.
pub proof fn lemma_tick_counts_down(state: GeneratorState)
    requires
        state.wf(),
        state.active(),
    ensures
        state.ticks_left() > 0,
        state.ticked(false).wf(),
        state.ticked(false).ticks_left() == state.ticks_left() - 1,
{
    let period = state.divisor + 1;
    let steps = state.steps();
    let next = state.ticked(false);
    assert(steps * period >= period) by (nonlinear_arith)
        requires
            steps >= 1,
            period >= 1,
    ;
    if state.edge_due() {
        assert(next.steps() * period == steps * period - period) by (nonlinear_arith)
            requires
                next.steps() == steps - 1,
        ;
        if !next.active() {
            assert(steps * period == period) by (nonlinear_arith)
                requires
                    steps == 1,
            ;
        }
    }
}

/// A burst in flight ends after exactly `ticks_left` ticks, as long as no
/// fault is sampled: the generator is active after fewer ticks and idle
/// after that many and after any number more.
pub proof fn lemma_burst_ends(state: GeneratorState, ticks: nat)
    requires
        state.wf(),
    ensures
        state.run(ticks).wf(),
        state.run(ticks).active() <==> ticks < state.ticks_left(),
        ticks <= state.ticks_left() ==> state.run(ticks).ticks_left() == state.ticks_left()
            - ticks,
    decreases ticks,
{
    if ticks > 0 {
        let prior = state.run((ticks - 1) as nat);
        lemma_burst_ends(state, (ticks - 1) as nat);
        if prior.active() {
            lemma_tick_counts_down(prior);
            if prior.ticked(false).active() {
                lemma_tick_counts_down(prior.ticked(false));
            }
        }
    } else if state.active() {
        lemma_tick_counts_down(state);
    }
}

} // verus!
