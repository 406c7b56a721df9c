use hakoniwa::{Container, ExecutorResultStatus, ExitStatus, RunOutcome, Stdio, WaitStatus};

#[test]
fn args_and_envs_accumulate() {
    let mut cmd = Container::new().command("/bin/sh");
    cmd.arg("-c").args(&["echo $A", "x"]).env("A", "1").envs(&[("B", "2"), ("A", "3")]);
    assert_eq!(cmd.get_args(), vec!["-c", "echo $A", "x"]);
    assert_eq!(
        cmd.get_envs(),
        vec![("A".to_string(), "3".to_string()), ("B".to_string(), "2".to_string())]
    );
}

#[test]
fn current_dir_and_timeout() {
    let mut cmd = Container::new().command("/bin/pwd");
    assert_eq!(cmd.get_current_dir(), None);
    assert_eq!(cmd.get_wait_timeout(), None);
    cmd.current_dir("/tmp").wait_timeout(5);
    assert_eq!(cmd.get_current_dir(), Some("/tmp"));
    assert_eq!(cmd.get_wait_timeout(), Some(5));
}

#[test]
fn stdio_defaults_apply_to_unset_streams() {
    let mut cmd = Container::new().command("/bin/cat");
    assert_eq!(cmd.get_stdio(), (None, None, None));
    cmd.stdout(Stdio::piped());
    assert_eq!(
        cmd.stdio_or(Stdio::inherit()),
        (Stdio::Inherit, Stdio::MakePipe, Stdio::Inherit)
    );
    cmd.stdin(Stdio::inherit()).stderr(Stdio::inherit());
    assert_eq!(
        cmd.stdio_or(Stdio::MakePipe),
        (Stdio::Inherit, Stdio::MakePipe, Stdio::Inherit)
    );
}

#[test]
fn exit_status_of_an_exit() {
    let cmd = Container::new().command("/bin/false");
    let s = ExitStatus::from_wait_status(&WaitStatus::Exited { pid: 10, status: 1 }, &cmd);
    assert_eq!(s.code, 1);
    assert_eq!(s.reason, "process(/bin/false) exited with code 1");
    assert_eq!(s.exit_code, Some(1));
    assert!(s.rusage.is_none());
    assert!(!s.success());
    let ok = ExitStatus::from_wait_status(&WaitStatus::Exited { pid: 10, status: 0 }, &cmd);
    assert!(ok.success());
    let neg = ExitStatus::from_wait_status(&WaitStatus::Exited { pid: 10, status: -3 }, &cmd);
    assert_eq!(neg.reason, "process(/bin/false) exited with code -3");
}

#[test]
fn exit_status_of_a_signal() {
    let cmd = Container::new().command("/bin/sleep");
    let ws = WaitStatus::Signaled { pid: 11, signal: 9, name: "SIGKILL".to_string(), core_dumped: false };
    let s = ExitStatus::from_wait_status(&ws, &cmd);
    assert_eq!(s.code, 137);
    assert_eq!(s.reason, "process(/bin/sleep) received signal SIGKILL");
    assert_eq!(s.exit_code, None);
    assert!(!s.success());
}

#[test]
fn exit_status_failure() {
    let s = ExitStatus::new_failure("spawn failed");
    assert_eq!(s.code, ExitStatus::FAILURE);
    assert_eq!(s.code, 125);
    assert_eq!(s.reason, "spawn failed");
    assert!(!s.success());
    assert_eq!(ExitStatus::SUCCESS, 0);
}

#[test]
fn after_wait_sigkill_replaces_recorded_status() {
    let recorded = Some(ExitStatus::new_failure("recorded"));
    let s = ExitStatus::after_wait(true, recorded.clone()).unwrap();
    assert_eq!(s.code, 125);
    assert_eq!(s.reason, "container received signal SIGKILL");
    let kept = ExitStatus::after_wait(false, recorded).unwrap();
    assert_eq!(kept.reason, "recorded");
    assert!(ExitStatus::after_wait(false, None).is_none());
}

#[test]
fn args_and_envs_equal_one_at_a_time() {
    let mut a = Container::new().command("/bin/sh");
    a.args(&["-c", "x"]).envs(&[("K", "1"), ("K", "2"), ("L", "3")]);
    let mut b = Container::new().command("/bin/sh");
    b.arg("-c").arg("x").env("K", "1").env("K", "2").env("L", "3");
    assert_eq!(a.get_args(), b.get_args());
    assert_eq!(a.get_envs(), b.get_envs());
}

fn signaled(signal: i32, name: &str) -> WaitStatus {
    WaitStatus::Signaled { pid: 1, signal, name: name.to_string(), core_dumped: false }
}

#[test]
fn run_outcome_classifies_wait_status() {
    let o = RunOutcome::from_wait_status(&WaitStatus::Exited { pid: 1, status: 3 });
    assert_eq!((o.status, o.reason.as_str(), o.exit_code), (ExecutorResultStatus::Exited, "", Some(3)));
    let o = RunOutcome::from_wait_status(&signaled(9, "SIGKILL"));
    assert_eq!((o.status, o.reason.as_str(), o.exit_code), (ExecutorResultStatus::TimeLimitExceeded, "signaled: SIGKILL", Some(137)));
    assert_eq!(RunOutcome::from_wait_status(&signaled(24, "SIGXCPU")).status, ExecutorResultStatus::TimeLimitExceeded);
    assert_eq!(RunOutcome::from_wait_status(&signaled(25, "SIGXFSZ")).status, ExecutorResultStatus::OutputLimitExceeded);
    assert_eq!(RunOutcome::from_wait_status(&signaled(31, "SIGSYS")).status, ExecutorResultStatus::RestrictedFunction);
    assert_eq!(RunOutcome::from_wait_status(&signaled(15, "SIGTERM")).status, ExecutorResultStatus::Signaled);
    let o = RunOutcome::from_wait_status(&WaitStatus::Other);
    assert_eq!((o.status, o.reason.as_str(), o.exit_code), (ExecutorResultStatus::SandboxSetupError, "unexpected wait status", Some(125)));
}
