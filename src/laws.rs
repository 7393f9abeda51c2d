use vstd::prelude::*;
use crate::command::{is_blank, lemma_words_empty_iff_blank};
use crate::job::{completed, is_terminal, planned, prepared, Action, Event, Phase};

verus! {

/// One step that the driver takes on a job.
pub enum Step {
    /// [`crate::Job::prepare`]: decide the tick's action.
    Prepare,
    /// [`crate::Job::complete`]: apply what the host observed.
    Complete(Event),
}

/// The state of a job running `command` after `s`, from state `p`.
pub open spec fn after(p: Phase, command: Seq<char>, s: Step) -> Phase {
    match s {
        Step::Prepare => prepared(p, command),
        Step::Complete(e) => completed(p, e),
    }
}

/// The states a job running `command` passes through, starting in `p0`
/// and taking `steps` in order: one more state than steps.
pub open spec fn history(p0: Phase, command: Seq<char>, steps: Seq<Step>) -> Seq<Phase>
    decreases steps.len(),
{
    if steps.len() == 0 {
        seq![p0]
    } else {
        let h = history(p0, command, steps.drop_last());
        h.push(after(h.last(), command, steps.last()))
    }
}

/// `b` can be observed at or after `a` along
/// `Queued, {Running | SpawnFailed}, [Finished]`.
pub open spec fn leads_to(a: Phase, b: Phase) -> bool {
    ||| a == b
    ||| (a is Queued && !(b is Queued))
    ||| (a is Running && b is Finished)
}

proof fn lemma_step_leads_to(p: Phase, command: Seq<char>, s: Step)
    ensures
        leads_to(p, after(p, command, s)),
{
}

proof fn lemma_leads_to_transitive(a: Phase, b: Phase, c: Phase)
    requires
        leads_to(a, b),
        leads_to(b, c),
    ensures
        leads_to(a, c),
{
}

proof fn lemma_history_len(p0: Phase, command: Seq<char>, steps: Seq<Step>)
    ensures
        history(p0, command, steps).len() == steps.len() + 1,
        history(p0, command, steps)[0] == p0,
    decreases steps.len(),
{
    if steps.len() > 0 {
        lemma_history_len(p0, command, steps.drop_last());
    }
}

/// Along any run of steps, each observed state leads to every later one:
/// the states seen are a prefix of `Queued, {Running | SpawnFailed},
/// [Finished]`, each held for some steps.
pub proof fn lemma_history_in_order(p0: Phase, command: Seq<char>, steps: Seq<Step>)
    ensures
        history(p0, command, steps).len() == steps.len() + 1,
        forall|i: int, j: int|
            0 <= i <= j < history(p0, command, steps).len() ==> leads_to(
                #[trigger] history(p0, command, steps)[i],
                #[trigger] history(p0, command, steps)[j],
            ),
    decreases steps.len(),
{
    lemma_history_len(p0, command, steps);
    if steps.len() > 0 {
        let prev = steps.drop_last();
        lemma_history_in_order(p0, command, prev);
        lemma_history_len(p0, command, prev);
        let h = history(p0, command, steps);
        let hp = history(p0, command, prev);
        lemma_step_leads_to(hp.last(), command, steps.last());
        assert forall|i: int, j: int| 0 <= i <= j < h.len() implies leads_to(
            #[trigger] h[i],
            #[trigger] h[j],
        ) by {
            if j == h.len() - 1 && i < j {
                assert(h[i] == hp[i]);
                assert(leads_to(hp[i], hp.last()));
                lemma_leads_to_transitive(hp[i], hp.last(), h[j]);
            } else if j < h.len() - 1 {
                assert(h[i] == hp[i]);
                assert(h[j] == hp[j]);
            }
        }
    }
}

/// A job starts queued and, once it has left `Queued`, never returns to it.
pub proof fn lemma_never_requeued(command: Seq<char>, steps: Seq<Step>)
    ensures
        history(Phase::Queued, command, steps)[0] is Queued,
        forall|i: int, j: int|
            0 <= i <= j < history(Phase::Queued, command, steps).len() && !(
            #[trigger] history(Phase::Queued, command, steps)[i] is Queued) ==> !(
            #[trigger] history(Phase::Queued, command, steps)[j] is Queued),
{
    lemma_history_len(Phase::Queued, command, steps);
    lemma_history_in_order(Phase::Queued, command, steps);
}

/// A blank command (the empty one included) fails on its first tick, and
/// no process is asked for.
pub proof fn lemma_blank_command_fails(command: Seq<char>, a: Action)
    requires
        is_blank(command),
        planned(Phase::Queued, command, a),
    ensures
        after(Phase::Queued, command, Step::Prepare) == Phase::SpawnFailed,
        a is EmptyCommand,
{
    lemma_words_empty_iff_blank(command);
}

/// A running job whose process exited finishes with the whole output that
/// was read.
pub proof fn lemma_exit_finishes(command: Seq<char>, out: String)
    ensures
        after(Phase::Running, command, Step::Complete(Event::Exited(out))) == Phase::Finished(
            out@,
        ),
{
}

/// A job in a terminal state keeps it, whatever steps follow.
pub proof fn lemma_terminal_stays(p0: Phase, command: Seq<char>, steps: Seq<Step>)
    requires
        is_terminal(p0),
    ensures
        forall|k: int|
            0 <= k < history(p0, command, steps).len() ==> #[trigger] history(
                p0,
                command,
                steps,
            )[k] == p0,
{
    lemma_history_in_order(p0, command, steps);
    lemma_history_len(p0, command, steps);
    assert forall|k: int| 0 <= k < history(p0, command, steps).len() implies #[trigger] history(
        p0,
        command,
        steps,
    )[k] == p0 by {
        assert(leads_to(history(p0, command, steps)[0], history(p0, command, steps)[k]));
    }
}

} // verus!
