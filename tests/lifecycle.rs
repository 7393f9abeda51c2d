use rterm::{split_command, Action, CommandQueue, Event, JobState};

fn finished_with(state: &JobState, text: &str) -> bool {
    match state {
        JobState::Finished(out) => out == text,
        _ => false,
    }
}

#[test]
fn echo_hello_runs_then_finishes() {
    let mut q = CommandQueue::new();
    let id = q.submit("echo hello".to_string());
    assert_eq!(q.len(), 1);
    assert_eq!(q.job(0).id, id);
    assert!(matches!(q.job(0).state, JobState::Queued));

    match q.prepare(0) {
        Action::Spawn { program, args } => {
            assert_eq!(program, "echo");
            assert_eq!(args, vec!["hello".to_string()]);
        }
        _ => panic!("expected a spawn"),
    }
    assert!(matches!(q.job(0).state, JobState::Queued));
    q.complete(0, Event::Spawned);
    assert!(matches!(q.job(0).state, JobState::Running));

    assert!(matches!(q.prepare(0), Action::Poll));
    q.complete(0, Event::StillRunning);
    assert!(matches!(q.job(0).state, JobState::Running));

    assert!(matches!(q.prepare(0), Action::Poll));
    q.complete(0, Event::Exited("hello\n".to_string()));
    assert!(finished_with(&q.job(0).state, "hello\n"));
    assert_eq!(q.job(0).command, "echo hello");
}

#[test]
fn missing_binary_fails_to_spawn() {
    let mut q = CommandQueue::new();
    q.submit("this-binary-does-not-exist".to_string());
    match q.prepare(0) {
        Action::Spawn { program, args } => {
            assert_eq!(program, "this-binary-does-not-exist");
            assert!(args.is_empty());
        }
        _ => panic!("expected a spawn"),
    }
    q.complete(0, Event::SpawnRejected);
    assert!(matches!(q.job(0).state, JobState::SpawnFailed));
}

#[test]
fn empty_command_fails_without_process() {
    let mut q = CommandQueue::new();
    q.submit(String::new());
    assert!(matches!(q.prepare(0), Action::EmptyCommand));
    assert!(matches!(q.job(0).state, JobState::SpawnFailed));
}

#[test]
fn whitespace_command_fails_without_process() {
    let mut q = CommandQueue::new();
    q.submit(" \t \n\u{3000} ".to_string());
    assert!(matches!(q.prepare(0), Action::EmptyCommand));
    assert!(matches!(q.job(0).state, JobState::SpawnFailed));
}

#[test]
fn two_jobs_keep_order_and_progress_independently() {
    let mut q = CommandQueue::new();
    let a = q.submit("sleep 1".to_string());
    let b = q.submit("echo hi".to_string());
    assert_ne!(a, b);
    let snap = q.snapshot();
    assert_eq!(snap.len(), 2);
    assert_eq!(snap[0].id, a);
    assert_eq!(snap[0].command, "sleep 1");
    assert_eq!(snap[1].id, b);
    assert_eq!(snap[1].command, "echo hi");

    assert!(matches!(q.prepare(0), Action::Spawn { .. }));
    q.complete(0, Event::Spawned);
    assert!(matches!(q.prepare(1), Action::Spawn { .. }));
    q.complete(1, Event::Spawned);

    q.complete(1, Event::Exited("hi\n".to_string()));
    assert!(finished_with(&q.job(1).state, "hi\n"));
    assert!(matches!(q.job(0).state, JobState::Running));

    let snap = q.snapshot();
    assert!(matches!(snap[0].state, JobState::Running));
    assert!(finished_with(&snap[1].state, "hi\n"));
}

#[test]
fn terminal_states_do_not_change() {
    let mut q = CommandQueue::new();
    q.submit("".to_string());
    q.submit("echo x".to_string());
    q.prepare(0);
    q.prepare(1);
    q.complete(1, Event::Spawned);
    q.complete(1, Event::Exited("x\n".to_string()));
    for _ in 0..3 {
        assert!(matches!(q.prepare(0), Action::Idle));
        assert!(matches!(q.prepare(1), Action::Idle));
        q.complete(0, Event::Spawned);
        q.complete(1, Event::Exited("other".to_string()));
        q.complete(1, Event::ReadFailed);
        assert!(matches!(q.job(0).state, JobState::SpawnFailed));
        assert!(finished_with(&q.job(1).state, "x\n"));
    }
}

#[test]
fn read_failure_still_finishes() {
    let mut q = CommandQueue::new();
    q.submit("cat".to_string());
    q.prepare(0);
    q.complete(0, Event::Spawned);
    q.complete(0, Event::ReadFailed);
    assert!(finished_with(&q.job(0).state, ""));
}

#[test]
fn events_that_do_not_fit_are_ignored() {
    let mut q = CommandQueue::new();
    q.submit("ls -l".to_string());
    q.complete(0, Event::Exited("early".to_string()));
    q.complete(0, Event::StillRunning);
    q.complete(0, Event::ReadFailed);
    assert!(matches!(q.job(0).state, JobState::Queued));
    q.complete(0, Event::Spawned);
    q.complete(0, Event::Spawned);
    q.complete(0, Event::SpawnRejected);
    assert!(matches!(q.job(0).state, JobState::Running));
}

#[test]
fn queued_is_never_reentered() {
    let mut q = CommandQueue::new();
    q.submit("true".to_string());
    q.complete(0, Event::SpawnRejected);
    let all = [
        Event::Spawned,
        Event::SpawnRejected,
        Event::StillRunning,
        Event::Exited(String::new()),
        Event::ReadFailed,
    ];
    for e in all {
        q.prepare(0);
        q.complete(0, e);
        assert!(!matches!(q.job(0).state, JobState::Queued));
    }
}

#[test]
fn split_on_runs_of_whitespace() {
    assert_eq!(
        split_command("  ls\t-la   /tmp \n"),
        vec!["ls".to_string(), "-la".to_string(), "/tmp".to_string()]
    );
    assert_eq!(split_command("a\u{a0}b"), vec!["a".to_string(), "b".to_string()]);
    assert_eq!(split_command("héllo wörld"), vec!["héllo".to_string(), "wörld".to_string()]);
    assert!(split_command("").is_empty());
    assert!(split_command(" \t ").is_empty());
    assert_eq!(split_command("x"), vec!["x".to_string()]);
}

#[test]
fn spawn_action_splits_arguments() {
    let mut q = CommandQueue::new();
    q.submit("  grep  -r  needle  . ".to_string());
    match q.prepare(0) {
        Action::Spawn { program, args } => {
            assert_eq!(program, "grep");
            assert_eq!(args, vec!["-r".to_string(), "needle".to_string(), ".".to_string()]);
        }
        _ => panic!("expected a spawn"),
    }
}

#[test]
fn labels_for_display() {
    assert_eq!(JobState::Queued.label(), "waiting");
    assert_eq!(JobState::Running.label(), "running");
    assert_eq!(JobState::SpawnFailed.label(), "failed");
    assert_eq!(
        JobState::Finished("hello\n".to_string()).label(),
        "finished-with-output:hello\n"
    );
}

#[test]
fn new_queue_is_empty() {
    let q = CommandQueue::new();
    assert_eq!(q.len(), 0);
    assert!(q.snapshot().is_empty());
}
