use vstd::prelude::*;
use crate::command::{split_command, words};

verus! {

#[verifier::external_type_specification]
#[verifier::external_body]
pub struct ExUuid(uuid::Uuid);

/// Relies on `uuid::Uuid::new_v4`: a fresh random identifier. Nothing is
/// promised of its value.
pub assume_specification[ uuid::Uuid::new_v4 ]() -> uuid::Uuid;

/// The lifecycle of a job as seen by its contracts.
pub enum Phase {
    Queued,
    SpawnFailed,
    Running,
    Finished(Seq<char>),
}

/// Where a job stands. The process handle of a running job is held by the
/// host that spawned it; the job records only that it is running.
pub enum JobState {
    /// Submitted; no process has been attempted yet.
    Queued,
    /// Starting the process was attempted and refused (terminal).
    SpawnFailed,
    /// A process was started and has not been seen to exit.
    Running,
    /// The process exited; its standard output, read once (terminal).
    Finished(String),
}

impl View for JobState {
    type V = Phase;

    open spec fn view(&self) -> Phase {
        match self {
            JobState::Queued => Phase::Queued,
            JobState::SpawnFailed => Phase::SpawnFailed,
            JobState::Running => Phase::Running,
            JobState::Finished(out) => Phase::Finished(out@),
        }
    }
}

/// What the host observed after doing the work that an [`Action`] asked for.
pub enum Event {
    /// The process was started.
    Spawned,
    /// Starting the process failed (program not found, permission denied, ...).
    SpawnRejected,
    /// A non-blocking check found the process still running.
    StillRunning,
    /// The process exited and its standard output was read to the end.
    Exited(String),
    /// The process exited but its standard output could not be read.
    ReadFailed,
}

/// What the host has to do for a job on this tick.
pub enum Action {
    /// Nothing: the job is in a terminal state.
    Idle,
    /// The command was blank; the job failed without any process being started.
    EmptyCommand,
    /// Start `program` with `args`, its standard output captured through a pipe.
    Spawn { program: String, args: Vec<String> },
    /// Check without blocking whether the job's process has exited.
    Poll,
}

/// Whether `p` is a state that no step leaves.
pub open spec fn is_terminal(p: Phase) -> bool {
    p is SpawnFailed || p is Finished
}

/// The state of a job after it was prepared for a tick: a queued blank
/// command fails on the spot, every other state is kept.
pub open spec fn prepared(p: Phase, command: Seq<char>) -> Phase {
    if p is Queued && words(command).len() == 0 {
        Phase::SpawnFailed
    } else {
        p
    }
}

/// The state of a job after the host reported `e`. An event that does not
/// fit the state leaves it unchanged.
pub open spec fn completed(p: Phase, e: Event) -> Phase {
    match (p, e) {
        (Phase::Queued, Event::Spawned) => Phase::Running,
        (Phase::Queued, Event::SpawnRejected) => Phase::SpawnFailed,
        (Phase::Running, Event::Exited(out)) => Phase::Finished(out@),
        (Phase::Running, Event::ReadFailed) => Phase::Finished(seq![]),
        _ => p,
    }
}

/// `a` is the action asked for a job in state `p` running `command`.
pub open spec fn planned(p: Phase, command: Seq<char>, a: Action) -> bool {
    match a {
        Action::Idle => is_terminal(p),
        Action::EmptyCommand => p is Queued && words(command).len() == 0,
        Action::Spawn { program, args } => {
            &&& p is Queued
            &&& words(command).len() > 0
            &&& program@ == words(command)[0]
            &&& args@.map_values(|t: String| t@) == words(command).skip(1)
        },
        Action::Poll => p is Running,
    }
}

/// The text that displays a state.
pub open spec fn label_of(p: Phase) -> Seq<char> {
    match p {
        Phase::Queued => "waiting"@,
        Phase::SpawnFailed => "failed"@,
        Phase::Running => "running"@,
        Phase::Finished(out) => "finished-with-output:"@ + out,
    }
}

/// One submitted command and its lifecycle.
pub struct Job {
    pub id: uuid::Uuid,
    pub command: String,
    pub state: JobState,
}

impl JobState {
    /// The text that displays this state.
    pub fn label(&self) -> (r: String)
        ensures
            r@ == label_of(self@),
    {
        match self {
            JobState::Queued => "waiting".to_owned(),
            JobState::SpawnFailed => "failed".to_owned(),
            JobState::Running => "running".to_owned(),
            JobState::Finished(out) => {
                let mut r = "finished-with-output:".to_owned();
                r.append(out.as_str());
                r
            },
        }
    }

    /// A copy of this state.
    pub fn duplicate(&self) -> (r: JobState)
        ensures
            r@ == self@,
    {
        match self {
            JobState::Queued => JobState::Queued,
            JobState::SpawnFailed => JobState::SpawnFailed,
            JobState::Running => JobState::Running,
            JobState::Finished(out) => JobState::Finished(out.clone()),
        }
    }
}

impl Job {
    /// A new queued job for `command`, with a fresh identifier.
    pub fn new(command: String) -> (r: Job)
        ensures
            r.command@ == command@,
            r.state@ == Phase::Queued,
    {
        Job { id: uuid::Uuid::new_v4(), command, state: JobState::Queued }
    }

    /// A copy of this job.
    pub fn duplicate(&self) -> (r: Job)
        ensures
            r.id == self.id,
            r.command@ == self.command@,
            r.state@ == self.state@,
    {
        Job { id: self.id, command: self.command.clone(), state: self.state.duplicate() }
    }

    /// Decides what the host must do for this job on this tick. A queued
    /// blank command moves to `SpawnFailed` here; no other state changes.
    pub fn prepare(&mut self) -> (r: Action)
        ensures
            final(self).id == old(self).id,
            final(self).command@ == old(self).command@,
            final(self).state@ == prepared(old(self).state@, old(self).command@),
            planned(old(self).state@, old(self).command@, r),
    {
        match self.state {
            JobState::Queued => {
                let mut parts = split_command(self.command.as_str());
                if parts.len() == 0 {
                    self.state = JobState::SpawnFailed;
                    Action::EmptyCommand
                } else {
                    let ghost all = parts@;
                    let program = parts.remove(0);
                    proof {
                        assert(parts@.map_values(|t: String| t@) =~= all.map_values(
                            |t: String| t@,
                        ).skip(1));
                    }
                    Action::Spawn { program, args: parts }
                }
            },
            JobState::Running => Action::Poll,
            _ => Action::Idle,
        }
    }

    /// Applies what the host observed. Events that do not fit the current
    /// state are ignored.
    pub fn complete(&mut self, e: Event)
        ensures
            final(self).id == old(self).id,
            final(self).command@ == old(self).command@,
            final(self).state@ == completed(old(self).state@, e),
    {
        match (&self.state, e) {
            (JobState::Queued, Event::Spawned) => {
                self.state = JobState::Running;
            },
            (JobState::Queued, Event::SpawnRejected) => {
                self.state = JobState::SpawnFailed;
            },
            (JobState::Running, Event::Exited(out)) => {
                self.state = JobState::Finished(out);
            },
            (JobState::Running, Event::ReadFailed) => {
                self.state = JobState::Finished(String::new());
            },
            _ => {},
        }
    }
}

} // verus!
