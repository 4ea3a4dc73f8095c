//! Motion scheduling for stepper axes: bounded per-axis job queues, a
//! software-divided step clock, and a rendezvous barrier between axes.
//!
//! Hardware lines are held as images (the level last driven, the level last
//! sampled). The caller copies the images to and from the pins around each
//! call, so every function here runs to completion on plain values.

pub mod deque;
pub mod generator;
pub mod job;
pub mod line;
pub mod motor;
pub mod power;
pub mod queue;
pub mod rendezvous;
pub mod scheduler;
pub mod status;
pub mod stepper;

pub use job::{Job, Spin};
pub use motor::{DCMotor, MotorController};
pub use power::PowerSwitch;
pub use scheduler::Scheduler;
pub use status::Status;
pub use stepper::StepperMotor;
