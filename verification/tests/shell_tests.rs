use xtask_shell::envmap::lookup;
use xtask_shell::envsource::capture_env;
use xtask_shell::shell::Shell;

fn pairs(entries: &[(&str, &str)]) -> Vec<(String, String)> {
    entries.iter().map(|(k, v)| (k.to_string(), v.to_string())).collect()
}

#[test]
fn resolve_root_and_default_target() {
    let env = pairs(&[("CARGO_MANIFEST_DIR", "/repo/xtask")]);
    let shell = Shell::resolve(env, None, None, None).unwrap();
    assert_eq!(shell.project_root(), "/repo");
    assert_eq!(shell.target_dir(), "/repo/target");
}

#[test]
fn resolve_ascends_one_level() {
    let env = pairs(&[("CARGO_MANIFEST_DIR", "/repo/crates/xtask")]);
    let shell = Shell::resolve(env, None, None, None).unwrap();
    assert_eq!(shell.project_root(), "/repo/crates");
    assert_eq!(shell.target_dir(), "/repo/crates/target");
}

#[test]
fn resolve_honors_target_override() {
    let env = pairs(&[("CARGO_MANIFEST_DIR", "/repo/xtask"), ("CARGO_TARGET_DIR", "/elsewhere/out")]);
    let shell = Shell::resolve(env, None, None, None).unwrap();
    assert_eq!(shell.target_dir(), "/elsewhere/out");
}

#[test]
fn resolve_uses_baked_manifest_dir_as_fallback() {
    let env = pairs(&[]);
    let shell = Shell::resolve(env, Some("/repo/xtask".to_string()), None, None).unwrap();
    assert_eq!(shell.project_root(), "/repo");
}

#[test]
fn resolve_fails_without_manifest_dir() {
    let env = pairs(&[("OTHER", "x")]);
    assert!(Shell::resolve(env, None, None, None).is_none());
}

#[test]
fn resolve_fails_when_manifest_dir_has_no_parent() {
    let env = pairs(&[("CARGO_MANIFEST_DIR", "/")]);
    assert!(Shell::resolve(env, None, None, None).is_none());
    let env = pairs(&[("CARGO_MANIFEST_DIR", "xtask")]);
    assert!(Shell::resolve(env, None, None, None).is_none());
}

#[test]
fn tool_paths_prefer_environment_then_baked_then_bare() {
    let env = pairs(&[("CARGO_MANIFEST_DIR", "/repo/xtask"), ("RUSTC", "/custom/rustc")]);
    let shell = Shell::resolve(env, None, Some("/baked/rustc".to_string()), None).unwrap();
    assert_eq!(shell.rustc().program, "/custom/rustc");
    assert_eq!(shell.cargo().program, "cargo");

    let env = pairs(&[("CARGO_MANIFEST_DIR", "/repo/xtask")]);
    let shell = Shell::resolve(
        env,
        None,
        Some("/baked/rustc".to_string()),
        Some("/baked/cargo".to_string()),
    )
    .unwrap();
    assert_eq!(shell.rustc().program, "/baked/rustc");
    assert_eq!(shell.cargo().program, "/baked/cargo");
}

#[test]
fn subprocess_starts_from_snapshot_and_root() {
    let env = pairs(&[("CARGO_MANIFEST_DIR", "/repo/xtask"), ("KEY", "VALUE")]);
    let shell = Shell::resolve(env.clone(), None, None, None).unwrap();
    let sub = shell.subprocess("echo".to_string());
    assert_eq!(sub.program, "echo");
    assert!(sub.args.is_empty());
    assert_eq!(sub.current_dir, "/repo");
    assert!(!sub.silent);
    assert!(!sub.dry_run);
    assert_eq!(sub.envs, env);
}

#[test]
fn snapshot_lookup_last_binding_wins() {
    let env = pairs(&[("A", "1"), ("B", "2"), ("A", "3")]);
    assert_eq!(lookup(&env, &"A".to_string()), Some("3".to_string()));
    assert_eq!(lookup(&env, &"B".to_string()), Some("2".to_string()));
    assert_eq!(lookup(&env, &"C".to_string()), None);
    assert_eq!(lookup(&Vec::new(), &"A".to_string()), None);
}

#[test]
fn captured_environment_is_searchable() {
    let env = capture_env();
    let path = lookup(&env, &"PATH".to_string());
    assert!(path.is_some());
}
