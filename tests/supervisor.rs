use procdash::log_buffer::LogBuffer;
use procdash::managed_process::{join_words, ExitInfo, ManagedProcess, SpecialStatus, StopStep};

fn words(v: &[&str]) -> Vec<String> {
    v.iter().map(|s| s.to_string()).collect()
}

fn echo_loop() -> ManagedProcess {
    ManagedProcess::new("echo-loop", words(&["sh", "-c", "echo hi; sleep 5"]), None, None)
}

#[test]
fn new_process_is_stopped() {
    let mut p = echo_loop();
    assert_eq!(p.name, "echo-loop");
    assert!(!p.is_running());
    assert_eq!(p.status(None), "Stopped");
    assert!(p.started_at.is_none());
    assert!(p.exit_status.is_none());
}

#[test]
fn start_request_splits_program_and_args() {
    let p = ManagedProcess::new("w", words(&["sh", "-c", "x"]), Some("/tmp".to_string()), None);
    let mut logs = LogBuffer::new();
    let req = p.start_request(&mut logs).unwrap();
    assert_eq!(req.program, "sh");
    assert_eq!(req.args, words(&["-c", "x"]));
    assert_eq!(req.cwd.as_deref(), Some("/tmp"));
    assert_eq!(logs.len(), 0);
}

#[test]
fn empty_command_is_logged_not_spawned() {
    let p = ManagedProcess::new("empty", vec![], None, None);
    let mut logs = LogBuffer::new();
    assert!(p.start_request(&mut logs).is_none());
    assert_eq!(logs.snapshot(), vec!["Command is empty".to_string()]);
}

#[test]
fn echo_loop_runs_then_exits_with_code_zero() {
    let mut p = echo_loop();
    let mut logs = LogBuffer::new();
    assert!(p.start_request(&mut logs).is_some());
    p.on_spawned(&mut logs, 4242, 10);
    assert_eq!(p.status(None), "Running");
    assert_eq!(p.started_at, Some(10));
    logs.push("hi".to_string());
    let lines = logs.snapshot();
    assert!(lines.contains(&"Started: sh -c echo hi; sleep 5".to_string()));
    assert!(lines.contains(&"hi".to_string()));
    assert_eq!(p.status(Some(ExitInfo { code: Some(0) })), "Stopped");
    assert_eq!(p.exit_status, Some(ExitInfo { code: Some(0) }));
    assert!(p.started_at.is_none());
    assert!(!p.is_running());
}

#[test]
fn exit_is_recorded_once() {
    let mut p = echo_loop();
    let mut logs = LogBuffer::new();
    p.on_spawned(&mut logs, 7, 1);
    assert_eq!(p.status(Some(ExitInfo { code: Some(3) })), "Stopped");
    assert_eq!(p.status(Some(ExitInfo { code: Some(9) })), "Stopped");
    assert_eq!(p.exit_status, Some(ExitInfo { code: Some(3) }));
}

#[test]
fn start_while_running_spawns_nothing() {
    let mut p = echo_loop();
    let mut logs = LogBuffer::new();
    p.on_spawned(&mut logs, 7, 100);
    let before = logs.len();
    assert!(p.start_request(&mut logs).is_none());
    assert_eq!(p.started_at, Some(100));
    assert_eq!(p.pid, Some(7));
    assert_eq!(logs.len(), before);
}

#[test]
fn failed_spawn_is_logged_and_stays_stopped() {
    let mut p = ManagedProcess::new("bad", words(&["/nonexistent-binary"]), None, None);
    let mut logs = LogBuffer::new();
    assert!(p.start_request(&mut logs).is_some());
    p.on_spawn_failed(&mut logs, "No such file or directory (os error 2)");
    assert_eq!(
        logs.snapshot(),
        vec!["Failed to start: No such file or directory (os error 2)".to_string()]
    );
    assert_eq!(p.status(None), "Stopped");
    assert!(p.pid.is_none());
}

#[test]
fn graceful_stop() {
    let mut p = echo_loop();
    let mut logs = LogBuffer::new();
    p.on_spawned(&mut logs, 55, 1);
    assert_eq!(p.begin_stop(), Some(55));
    assert!(matches!(p.special, SpecialStatus::Terminating));
    assert_eq!(p.poll_stop(&mut logs, 0, None), StopStep::Wait);
    assert_eq!(p.poll_stop(&mut logs, 50, Some(ExitInfo { code: None })), StopStep::Exited);
    assert_eq!(p.exit_status, Some(ExitInfo { code: None }));
    assert_eq!(logs.snapshot().last().unwrap().as_str(), "Stopped gracefully");
    assert_eq!(p.port_fallback(), None);
    assert_eq!(p.status(None), "Killed Gracefully");
    assert_eq!(p.status(None), "Stopped");
}

#[test]
fn stubborn_process_is_force_killed() {
    let mut p = echo_loop();
    let mut logs = LogBuffer::new();
    p.on_spawned(&mut logs, 55, 1);
    assert_eq!(p.begin_stop(), Some(55));
    assert!(matches!(p.special, SpecialStatus::Terminating));
    assert_eq!(p.poll_stop(&mut logs, 950, None), StopStep::Wait);
    assert_eq!(p.poll_stop(&mut logs, 1000, None), StopStep::ForceKill);
    p.on_force_killed(&mut logs);
    assert_eq!(logs.snapshot().last().unwrap().as_str(), "Force killed");
    assert!(p.started_at.is_none());
    assert_eq!(p.status(None), "Force Killed");
    assert_eq!(p.status(None), "Stopped");
}

#[test]
fn stop_without_handle_tries_the_port() {
    let mut p = ManagedProcess::new("web", words(&["srv"]), None, Some(8080));
    let mut logs = LogBuffer::new();
    assert_eq!(p.begin_stop(), None);
    assert_eq!(p.port_fallback(), Some(8080));
    p.on_port_killed(&mut logs, 8080, "1234");
    assert_eq!(logs.snapshot(), vec!["Killed PID 1234 on port 8080".to_string()]);
    assert_eq!(p.status(None), "Killed 1234");
    assert_eq!(p.status(None), "Stopped");
}

#[test]
fn port_without_listener_logs_no_kill() {
    let mut p = ManagedProcess::new("web", words(&["srv"]), None, Some(8080));
    let mut logs = LogBuffer::new();
    assert_eq!(p.begin_stop(), None);
    assert_eq!(p.port_fallback(), Some(8080));
    let table = b"LISTEN 0 128 0.0.0.0:22 0.0.0.0:* users:((\"sshd\",pid=99,fd=3))\n";
    assert_eq!(procdash::port_resolver::pid_from_port(8080, table), None);
    assert_eq!(logs.len(), 0);
    assert_eq!(p.status(None), "Killing By Port");
}

#[test]
fn restart_records_a_later_start() {
    let mut p = echo_loop();
    let mut logs = LogBuffer::new();
    p.on_spawned(&mut logs, 1, 100);
    assert_eq!(p.begin_stop(), Some(1));
    assert_eq!(p.poll_stop(&mut logs, 10, Some(ExitInfo { code: Some(0) })), StopStep::Exited);
    assert!(p.start_request(&mut logs).is_some());
    p.on_spawned(&mut logs, 2, 250);
    assert_eq!(p.started_at, Some(250));
    assert_eq!(p.status(None), "Running");
}

#[test]
fn join_words_uses_single_spaces() {
    assert_eq!(join_words(&words(&["a", "b c", "d"])), "a b c d");
    assert_eq!(join_words(&vec![]), "");
}
