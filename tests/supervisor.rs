use overlord::process::DEFAULT_MAX_RESTART_COUNT;
use overlord::{Action, Event, Process, Runnable, State};

fn argv(words: &[&str]) -> Vec<String> {
    words.iter().map(|s| s.to_string()).collect()
}

fn define(words: &[&str], cwd: Option<&str>, restart_delay: Option<u64>) -> Process {
    <Process as Runnable>::define_process(
        words[0],
        words[0],
        argv(words),
        restart_delay,
        cwd.map(|c| c.to_string()),
    )
}

/// Drives one run of the process: it starts, is seen alive once, then exits.
fn run_once(p: &mut Process, pid: u32, code: Option<i32>) -> Action {
    assert!(p.can_start());
    assert_eq!(p.apply(Event::Spawned(pid)), Action::Poll);
    assert_eq!(p.state, State::Running);
    assert_eq!(p.pid, Some(pid));
    assert_eq!(p.apply(Event::StillRunning), Action::Poll);
    p.apply(Event::Exited(code))
}

#[test]
fn process_test_run_ls_max_retries() {
    let interval = 1000;
    let mut p = define(&["ls", "-la"], Some("/"), Some(interval));
    let mut pid: u32 = 100;
    loop {
        match run_once(&mut p, pid, Some(0)) {
            Action::RestartAfter(delay) => assert_eq!(delay, interval),
            Action::Stop => break,
            Action::Poll => panic!("an exited process is not polled"),
        }
        pid += 1;
    }
    assert_eq!(p.state, State::Failed);
    assert_eq!(p.restart_count, p.max_restart_count);
}

#[test]
fn test_exitstatus() {
    let mut p = Process::define_with_budget("false", "false", argv(&["false"]), None, None, 0);
    assert_eq!(run_once(&mut p, 42, Some(1)), Action::Stop);
    assert_eq!(p.exit_status, Some(1));
    assert_eq!(p.state, State::Failed);
    assert_eq!(p.restart_count, 0);
    assert_eq!(p.pid, None);
}

#[test]
fn defined_record_has_default_settings() {
    let p = define(&["ls", "-la"], Some("/"), None);
    assert_eq!(p.name, "ls");
    assert_eq!(p.path, "ls");
    assert_eq!(p.args, argv(&["ls", "-la"]));
    assert_eq!(p.cwd, Some("/".to_string()));
    assert_eq!(p.restart_delay, 0);
    assert_eq!(p.max_restart_count, DEFAULT_MAX_RESTART_COUNT);
    assert_eq!(p.max_restart_count, 5);
    assert_eq!(p.state, State::Stopped);
    assert_eq!(p.restart_count, 0);
    assert_eq!(p.exit_status, None);
    assert_eq!(p.pid, None);
}

#[test]
fn unlaunched_record_ignores_observations() {
    let mut p = define(&["ls"], None, Some(10));
    for e in [Event::StillRunning, Event::Exited(Some(3)), Event::PollFailed, Event::Exited(None)] {
        assert_eq!(p.apply(e), Action::Stop);
        assert_eq!(p.state, State::Stopped);
        assert_eq!(p.restart_count, 0);
        assert_eq!(p.exit_status, None);
        assert_eq!(p.pid, None);
    }
}

#[test]
fn ls_restarts_once_then_fails_at_budget() {
    let mut p = define(&["ls", "-la"], Some("/"), Some(1000));
    assert_eq!(run_once(&mut p, 1, Some(0)), Action::RestartAfter(1000));
    assert_eq!(p.restart_count, 1);
    assert_eq!(p.state, State::Restarting);
    assert_eq!(p.exit_status, Some(0));
    assert_eq!(p.pid, None);
    for i in 1..p.max_restart_count {
        assert_eq!(run_once(&mut p, 1 + i as u32, Some(0)), Action::RestartAfter(1000));
        assert_eq!(p.restart_count, i + 1);
    }
    assert_eq!(run_once(&mut p, 99, Some(0)), Action::Stop);
    assert_eq!(p.state, State::Failed);
    assert_eq!(p.exit_status, Some(0));
    assert_eq!(p.restart_count, p.max_restart_count);
}

#[test]
fn restart_count_stays_within_budget() {
    let mut p = Process::define_with_budget("x", "x", argv(&["x"]), Some(5), None, 2);
    let events = [
        Event::Spawned(1),
        Event::Exited(Some(2)),
        Event::Exited(Some(2)),
        Event::Spawned(2),
        Event::Exited(None),
        Event::Spawned(3),
        Event::StillRunning,
        Event::Exited(Some(0)),
        Event::Spawned(4),
        Event::Exited(Some(0)),
    ];
    for e in events {
        p.apply(e);
        assert!(p.restart_count <= p.max_restart_count);
    }
    assert_eq!(p.restart_count, 2);
    assert_eq!(p.state, State::Failed);
}

#[test]
fn failed_record_never_changes() {
    let mut p = Process::define_with_budget("false", "false", argv(&["false"]), None, None, 0);
    run_once(&mut p, 5, Some(1));
    assert_eq!(p.state, State::Failed);
    for e in [Event::Spawned(9), Event::SpawnFailed, Event::StillRunning, Event::Exited(Some(0)), Event::PollFailed] {
        assert!(!p.can_start());
        assert_eq!(p.apply(e), Action::Stop);
        assert_eq!(p.state, State::Failed);
        assert_eq!(p.exit_status, Some(1));
        assert_eq!(p.restart_count, 0);
        assert_eq!(p.pid, None);
    }
}

#[test]
fn spawn_failure_is_reported_as_failed() {
    let mut p = define(&["/no/such/binary"], None, None);
    assert_eq!(p.apply(Event::SpawnFailed), Action::Stop);
    assert_eq!(p.state, State::Failed);
    assert_eq!(p.exit_status, None);
    assert_eq!(p.restart_count, 0);
}

#[test]
fn poll_failure_fails_despite_budget() {
    let mut p = define(&["sleep", "10"], None, None);
    assert_eq!(p.apply(Event::Spawned(3)), Action::Poll);
    assert_eq!(p.apply(Event::PollFailed), Action::Stop);
    assert_eq!(p.state, State::Failed);
    assert_eq!(p.restart_count, 0);
    assert_eq!(p.pid, None);
}

#[test]
fn signal_exit_counts_as_a_failure_to_retry() {
    let mut p = define(&["sleep", "10"], None, Some(7));
    assert_eq!(run_once(&mut p, 3, None), Action::RestartAfter(7));
    assert_eq!(p.exit_status, None);
    assert_eq!(p.state, State::Restarting);
    assert_eq!(p.restart_count, 1);
}

#[test]
fn second_start_of_running_record_is_ignored() {
    let mut p = define(&["sleep", "10"], None, None);
    assert_eq!(p.apply(Event::Spawned(3)), Action::Poll);
    assert!(!p.can_start());
    assert_eq!(p.apply(Event::Spawned(4)), Action::Poll);
    assert_eq!(p.pid, Some(3));
    assert_eq!(p.state, State::Running);
}

#[test]
fn invocation_args_drop_the_program_name() {
    let p = define(&["echo", "test"], Some("/"), None);
    assert_eq!(p.invocation_args(), argv(&["test"]));
    let p = define(&["ls", "-la", "/tmp"], None, None);
    assert_eq!(p.invocation_args(), argv(&["-la", "/tmp"]));
    let p = Process::define_with_budget("ls", "ls", Vec::new(), None, None, 1);
    assert!(p.invocation_args().is_empty());
}
