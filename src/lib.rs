//! A lifecycle manager for user-submitted shell-style commands.
//!
//! Jobs are held in a [`queue::CommandQueue`] and move through
//! `Queued -> {SpawnFailed | Running} -> Finished`. The operating-system work
//! (starting a process, polling it, draining its output) is done by the host,
//! which asks the queue what to do next and reports back what happened.
pub mod command;
pub mod job;
pub mod laws;
pub mod queue;

pub use command::split_command;
pub use job::{Action, Event, Job, JobState, Phase};
pub use queue::CommandQueue;
