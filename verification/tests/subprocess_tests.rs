use xtask_shell::envmap::lookup;
use xtask_shell::shell::Shell;
use xtask_shell::subprocess::run_outcome;
use xtask_shell::subprocess::RunDecision;
use xtask_shell::subprocess::SpawnOutcome;
use xtask_shell::ErrorKind;

fn pairs(entries: &[(&str, &str)]) -> Vec<(String, String)> {
    entries.iter().map(|(k, v)| (k.to_string(), v.to_string())).collect()
}

fn shell_with(entries: &[(&str, &str)]) -> Shell {
    Shell::resolve(pairs(entries), None, None, None).unwrap()
}

#[test]
fn builder_accumulates_arguments_in_order() {
    let shell = shell_with(&[("CARGO_MANIFEST_DIR", "/repo/xtask")]);
    let sub = shell
        .subprocess("tool".to_string())
        .arg("first".to_string())
        .args(vec!["second".to_string(), "third".to_string()])
        .arg("fourth".to_string());
    assert_eq!(sub.args, vec!["first", "second", "third", "fourth"]);
}

#[test]
fn builder_env_override_wins_over_snapshot() {
    let shell = shell_with(&[("CARGO_MANIFEST_DIR", "/repo/xtask"), ("A", "old"), ("B", "kept")]);
    let sub = shell.subprocess("tool".to_string()).env("A".to_string(), "new".to_string());
    assert_eq!(lookup(&sub.envs, &"A".to_string()), Some("new".to_string()));
    assert_eq!(lookup(&sub.envs, &"B".to_string()), Some("kept".to_string()));
}

#[test]
fn builder_silent_switch() {
    let shell = shell_with(&[("CARGO_MANIFEST_DIR", "/repo/xtask")]);
    let sub = shell.subprocess("tool".to_string());
    assert!(!sub.silent);
    let sub = sub.silent();
    assert!(sub.silent);
}

#[test]
fn dry_run_sentinel_skips_every_builder() {
    let shell = shell_with(&[("CARGO_MANIFEST_DIR", "/repo/xtask"), ("DRY_RUN", "")]);
    let sub = shell.subprocess("would-write-a-marker".to_string()).arg("x".to_string());
    assert!(sub.dry_run);
    assert!(matches!(sub.run_decision(), RunDecision::Skipped));
    let sub = shell.rustc();
    assert!(matches!(sub.run_decision(), RunDecision::Skipped));
}

#[test]
fn without_dry_run_the_invocation_is_launched_as_built() {
    let shell = shell_with(&[("CARGO_MANIFEST_DIR", "/repo/xtask")]);
    let sub = shell.subprocess("echo".to_string()).arg("hi".to_string());
    assert!(!sub.dry_run);
    match sub.run_decision() {
        RunDecision::Launch(spec) => {
            assert_eq!(spec.program, "echo");
            assert_eq!(spec.args, vec!["hi"]);
            assert_eq!(spec.current_dir, "/repo");
            assert_eq!(spec.envs, pairs(&[("CARGO_MANIFEST_DIR", "/repo/xtask")]));
        }
        RunDecision::Skipped => panic!("expected a launch"),
    }
    assert!(run_outcome(SpawnOutcome::Exited(Some(0))).is_ok());
}

#[test]
fn exit_code_seven_yields_message_with_seven() {
    let err = run_outcome(SpawnOutcome::Exited(Some(7))).unwrap_err();
    let msg = err.message().expect("a message error");
    assert!(msg.contains("7"));
    assert_eq!(msg, "Subprocess failed with the exit code 7");
}

#[test]
fn exit_code_zero_is_success_and_only_it() {
    assert!(run_outcome(SpawnOutcome::Exited(Some(0))).is_ok());
    assert!(run_outcome(SpawnOutcome::Exited(Some(1))).is_err());
    assert!(run_outcome(SpawnOutcome::Exited(Some(-3))).is_err());
    assert!(run_outcome(SpawnOutcome::Exited(None)).is_err());
}

#[test]
fn abnormal_termination_reports_code_zero() {
    let err = run_outcome(SpawnOutcome::Exited(None)).unwrap_err();
    assert_eq!(err.message().expect("a message error"), "Subprocess failed with the exit code 0");
}

#[test]
fn negative_exit_code_is_rendered_signed() {
    let err = run_outcome(SpawnOutcome::Exited(Some(-42))).unwrap_err();
    assert_eq!(
        err.message().expect("a message error"),
        "Subprocess failed with the exit code -42"
    );
}

#[test]
fn spawn_failure_is_carried_verbatim() {
    let os_err = std::io::Error::new(std::io::ErrorKind::NotFound, "no such program");
    let err = run_outcome(SpawnOutcome::SpawnFailed(os_err)).unwrap_err();
    assert!(err.message().is_none());
    match err.0 {
        ErrorKind::Io(e) => assert_eq!(e.kind(), std::io::ErrorKind::NotFound),
        ErrorKind::Msg(_) => panic!("expected the platform error"),
    }
}
