use tlt::error::Error;
use tlt::util::{get_output, is_success, spawn, SpawnOutcome};

#[test]
fn spawn_zero_exit_is_ok() {
    let r = spawn(SpawnOutcome::Exited(0, "exit status: 0".to_string()));
    assert_eq!(r, Ok(()));
}

#[test]
fn spawn_nonzero_exit_is_child_process_error() {
    let r = spawn(SpawnOutcome::Exited(1, "exit status: 1".to_string()));
    assert_eq!(r, Err(Error::ChildProcess("exit status: 1".to_string())));
}

#[test]
fn spawn_failure_is_child_process_error() {
    let r = spawn(SpawnOutcome::Failed("No such file or directory".to_string()));
    assert_eq!(
        r,
        Err(Error::ChildProcess("No such file or directory".to_string())),
    );
}

#[test]
fn is_success_zero_exit_is_true() {
    let r = is_success(SpawnOutcome::Exited(0, "exit status: 0".to_string()));
    assert_eq!(r, Ok(true));
}

#[test]
fn is_success_nonzero_exit_is_false_not_error() {
    let r = is_success(SpawnOutcome::Exited(1, "exit status: 1".to_string()));
    assert_eq!(r, Ok(false));
}

#[test]
fn is_success_spawn_failure_is_error_never_boolean() {
    let r = is_success(SpawnOutcome::Failed("No such file or directory".to_string()));
    assert_eq!(
        r,
        Err(Error::ChildProcess("No such file or directory".to_string())),
    );
}

#[test]
fn get_output_strips_exactly_one_trailing_newline() {
    let ok = SpawnOutcome::Exited(0, "exit status: 0".to_string());
    let r = get_output(ok, "main\n".to_string());
    assert_eq!(r, Ok("main".to_string()));
}

#[test]
fn get_output_keeps_inner_and_extra_newlines() {
    let ok = SpawnOutcome::Exited(0, "exit status: 0".to_string());
    let r = get_output(ok, "a\nb\n\n".to_string());
    assert_eq!(r, Ok("a\nb\n".to_string()));
}

#[test]
fn get_output_without_trailing_newline_is_unchanged() {
    let ok = SpawnOutcome::Exited(0, "exit status: 0".to_string());
    let r = get_output(ok, "main".to_string());
    assert_eq!(r, Ok("main".to_string()));
}

#[test]
fn get_output_nonzero_exit_fails() {
    let r = get_output(
        SpawnOutcome::Exited(128, "exit status: 128".to_string()),
        String::new(),
    );
    assert_eq!(r, Err(Error::ChildProcess("exit status: 128".to_string())));
}

#[test]
fn error_codes_distinguish_the_two_kinds() {
    assert_eq!(Error::Msg("x".to_string()).code(), 1);
    assert_eq!(Error::ChildProcess("x".to_string()).code(), 2);
}
