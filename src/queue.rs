use vstd::prelude::*;
use crate::job::{completed, planned, prepared, Action, Event, Job, Phase};

verus! {

/// The jobs submitted so far, in submission order. Jobs are never removed;
/// after creation only [`CommandQueue::prepare`] and
/// [`CommandQueue::complete`] change them, and only their state.
pub struct CommandQueue {
    jobs: Vec<Job>,
}

/// `b` is `a` with its state replaced by one in which the state's view is `p`.
pub open spec fn same_job_in(a: Job, b: Job, p: Phase) -> bool {
    &&& b.id == a.id
    &&& b.command@ == a.command@
    &&& b.state@ == p
}

impl View for CommandQueue {
    type V = Seq<Job>;

    closed spec fn view(&self) -> Seq<Job> {
        self.jobs@
    }
}

impl CommandQueue {
    /// An empty queue.
    pub fn new() -> (r: CommandQueue)
        ensures
            r@ == Seq::<Job>::empty(),
    {
        CommandQueue { jobs: Vec::new() }
    }

    /// Appends a new queued job for `command`, whatever it holds, and returns
    /// its identifier.
    pub fn submit(&mut self, command: String) -> (id: uuid::Uuid)
        ensures
            final(self)@.len() == old(self)@.len() + 1,
            final(self)@.take(old(self)@.len() as int) == old(self)@,
            final(self)@.last().id == id,
            final(self)@.last().command@ == command@,
            final(self)@.last().state@ == Phase::Queued,
    {
        let job = Job::new(command);
        let id = job.id;
        self.jobs.push(job);
        proof {
            assert(self.jobs@.take(old(self)@.len() as int) =~= old(self)@);
        }
        id
    }

    /// The number of jobs.
    pub fn len(&self) -> (r: usize)
        ensures
            r == self@.len(),
    {
        self.jobs.len()
    }

    /// The job at position `i`.
    pub fn job(&self, i: usize) -> (r: &Job)
        requires
            i < self@.len(),
        ensures
            *r == self@[i as int],
    {
        &self.jobs[i]
    }

    /// A copy of every job, in submission order, for display.
    pub fn snapshot(&self) -> (r: Vec<Job>)
        ensures
            r@.len() == self@.len(),
            forall|i: int|
                0 <= i < r@.len() ==> same_job_in(self@[i], #[trigger] r@[i], self@[i].state@),
    {
        let mut r: Vec<Job> = Vec::new();
        let mut i: usize = 0;
        while i < self.jobs.len()
            invariant
                i <= self.jobs@.len(),
                r@.len() == i,
                forall|k: int|
                    0 <= k < i ==> same_job_in(self.jobs@[k], #[trigger] r@[k], self.jobs@[k].state@),
            decreases self.jobs@.len() - i,
        {
            r.push(self.jobs[i].duplicate());
            i = i + 1;
        }
        r
    }

    /// Decides what the host must do for job `i` on this tick (see
    /// [`Job::prepare`]); other jobs are untouched.
    pub fn prepare(&mut self, i: usize) -> (r: Action)
        requires
            i < old(self)@.len(),
        ensures
            final(self)@.len() == old(self)@.len(),
            forall|k: int| 0 <= k < old(self)@.len() && k != i ==> final(self)@[k] == old(self)@[k],
            same_job_in(
                old(self)@[i as int],
                final(self)@[i as int],
                prepared(old(self)@[i as int].state@, old(self)@[i as int].command@),
            ),
            planned(old(self)@[i as int].state@, old(self)@[i as int].command@, r),
    {
        self.jobs[i].prepare()
    }

    /// Applies what the host observed for job `i` (see [`Job::complete`]);
    /// other jobs are untouched.
    pub fn complete(&mut self, i: usize, e: Event)
        requires
            i < old(self)@.len(),
        ensures
            final(self)@.len() == old(self)@.len(),
            forall|k: int| 0 <= k < old(self)@.len() && k != i ==> final(self)@[k] == old(self)@[k],
            same_job_in(
                old(self)@[i as int],
                final(self)@[i as int],
                completed(old(self)@[i as int].state@, e),
            ),
    {
        self.jobs[i].complete(e)
    }
}

} // verus!
