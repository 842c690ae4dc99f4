//! Action resolution and diagnostic reporting, exercised on concrete values.

use ldtk::action::Action;
use ldtk::errno::Errno;
use ldtk::handle_panic;
use ldtk::init_report;
use ldtk::print_error;

#[test]
fn mute_selector_resolves_to_mute() {
    let r = Action::from_env(Some(b"mute".to_vec()), None);
    assert_eq!(r, Some(Action::Mute));
}

#[test]
fn spawn_selector_resolves_to_spawn_with_command() {
    let r = Action::from_env(Some(b"spawn".to_vec()), Some(b"echo hi".to_vec()));
    assert_eq!(r, Some(Action::Spawn(b"echo hi".to_vec())));
}

#[test]
fn spawn_selector_without_command_uses_exact_default() {
    let r = Action::from_env(Some(b"spawn".to_vec()), None);
    assert_eq!(
        r,
        Some(Action::Spawn(b"echo \"i'm in ur address space\"".to_vec()))
    );
}

#[test]
fn absent_selector_resolves_to_no_action() {
    let r = Action::from_env(None, None);
    assert_eq!(r, None);
    let with_command = Action::from_env(None, Some(b"echo hi".to_vec()));
    assert_eq!(with_command, None);
}

#[test]
fn unrecognized_selector_resolves_to_no_action() {
    assert_eq!(Action::from_env(Some(b"frobnicate".to_vec()), None), None);
    assert_eq!(Action::from_env(Some(b"MUTE".to_vec()), None), None);
    assert_eq!(Action::from_env(Some(b"mute ".to_vec()), None), None);
    assert_eq!(Action::from_env(Some(b"".to_vec()), None), None);
    assert_eq!(
        Action::from_env(Some(b"spawnx".to_vec()), Some(b"echo hi".to_vec())),
        None
    );
}

#[test]
fn selector_keyword_names() {
    assert_eq!(Action::env_action_name(), b"LDTK_ACTION".to_vec());
    assert_eq!(Action::env_spawn_name(), b"LDTK_SPAWN".to_vec());
    assert_eq!(
        Action::default_spawn(),
        b"echo \"i'm in ur address space\"".to_vec()
    );
}

#[test]
fn default_action_is_mute() {
    assert_eq!(Action::default(), Action::Mute);
}

#[test]
fn print_error_writes_prefixed_line_in_debug_only() {
    assert_eq!(print_error(b"boom", true), Some(b"ldtk: boom".to_vec()));
    assert_eq!(print_error(b"boom", false), None);
}

#[test]
fn handle_panic_reports_payload_then_caller_terminates() {
    assert_eq!(
        handle_panic(Some(b"index out of range".to_vec()), true),
        Some(b"ldtk: index out of range".to_vec())
    );
    assert_eq!(handle_panic(Some(b"index out of range".to_vec()), false), None);
    assert_eq!(handle_panic(None, true), None);
}

#[test]
fn successful_outcome_reports_nothing() {
    assert_eq!(init_report(Ok(()), true), None);
    assert_eq!(init_report(Ok(()), false), None);
}

#[test]
fn failed_outcome_reports_only_in_debug() {
    let denied = Errno { code: 13 };
    assert_eq!(init_report(Err(denied), false), None);
    let line = init_report(Err(denied), true).expect("debug builds report");
    assert!(line.starts_with(b"ldtk: "));
    assert_eq!(&line[6..], b"Permission denied");
}
