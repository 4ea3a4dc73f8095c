use vstd::prelude::*;
use vstd::std_specs::convert::FromSpecImpl;

verus! {

/// A pulse burst: `pulses` steps (the sign gives the direction) at the speed
/// selected by `feed_rate`.
#[derive(Clone, Copy, Debug, PartialEq, Eq, Structural)]
pub struct Spin {
    /// Step count; negative values step in the opposite direction.
    pub pulses: i32,
    /// Speed code: the higher the code, the fewer ticks between steps.
    pub feed_rate: u8,
}

impl Spin {
    pub fn new(pulses: i32, feed_rate: u8) -> (spin: Self)
        ensures
            spin.pulses == pulses,
            spin.feed_rate == feed_rate,
    {
        Self { pulses, feed_rate }
    }
}

/// One entry of an axis queue.
#[derive(Clone, Copy, Debug, PartialEq, Eq, Structural)]
pub enum Job {
    /// A synchronization marker. A lone axis reads the value as the epoch that
    /// releases the marker; a scheduler reads it as the index of the peer axis
    /// to meet.
    Sync(usize),
    /// A pulse burst.
    Spin(Spin),
}

impl From<Spin> for Job {
    fn from(spin: Spin) -> (job: Job) {
        Job::Spin(spin)
    }
}

impl FromSpecImpl<Spin> for Job {
    open spec fn obeys_from_spec() -> bool {
        true
    }

    open spec fn from_spec(spin: Spin) -> Job {
        Job::Spin(spin)
    }
}

} // verus!
