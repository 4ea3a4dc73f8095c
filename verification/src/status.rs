use vstd::prelude::*;

verus! {

/// What an axis reports for one tick.
#[derive(Clone, Copy, Debug, PartialEq, Eq, Structural)]
pub enum Status {
    /// A pulse burst is in flight, or has just been loaded.
    Busy,
    /// Nothing is in flight and nothing could be started.
    Idle,
    /// The fault line is asserted; the axis is frozen.
    Fault,
}

} // verus!
