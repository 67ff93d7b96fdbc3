use browser_sessions::error::{Status, ToolError};
use browser_sessions::process::{
    command_line, is_process_running, kill_fallback, kill_process, probe_outcome, request_outcome, spawn_failed,
};

#[test]
fn test_kill_nonexistent_process() {
    // Try to kill a PID that almost certainly doesn't exist
    let result = kill_process(999999);
    // This should either succeed (no such process) or fail gracefully
    assert!(result.is_ok() || result.is_err());
}

#[test]
fn test_is_process_running_nonexistent() {
    let result = is_process_running(999999);
    assert!(result.is_ok());
    if let Ok(running) = result {
        assert!(!running);
    }
}

#[test]
fn kill_failure_quotes_the_first_reason() {
    match kill_process(999999) {
        Ok(()) => {}
        Err(error) => {
            assert_eq!(error.status, Status::GenericFailure);
            assert!(error.reason.starts_with("Failed to kill process 999999: "));
        }
    }
}

#[test]
fn fallback_succeeds_when_the_forced_stop_did() {
    assert_eq!(kill_fallback(42, "EPERM: Operation not permitted", true), Ok(()));
}

#[test]
fn fallback_failure_names_the_process() {
    assert_eq!(
        kill_fallback(42, "ESRCH: No such process", false),
        Err(ToolError {
            status: Status::GenericFailure,
            reason: "Failed to kill process 42: ESRCH: No such process".to_string(),
        })
    );
    assert_eq!(
        kill_fallback(0, "x", false).unwrap_err().reason,
        "Failed to kill process 0: x"
    );
    assert_eq!(
        kill_fallback(2147483647, "x", false).unwrap_err().reason,
        "Failed to kill process 2147483647: x"
    );
}

#[test]
fn large_process_numbers_read_as_negative() {
    assert_eq!(
        kill_fallback(4294967295, "x", false).unwrap_err().reason,
        "Failed to kill process -1: x"
    );
    assert_eq!(
        kill_fallback(2147483648, "x", false).unwrap_err().reason,
        "Failed to kill process -2147483648: x"
    );
}

#[test]
fn command_line_joins_with_spaces() {
    assert_eq!(command_line("npm", &vec!["run".to_string(), "dev".to_string()]), "npm run dev");
    assert_eq!(command_line("echo", &vec!["test".to_string()]), "echo test");
    assert_eq!(command_line("ls", &vec![]), "ls ");
    assert_eq!(command_line("a", &vec!["".to_string(), "b".to_string()]), "a  b");
}

#[test]
fn probe_says_running_only_when_accepted() {
    assert_eq!(probe_outcome(Ok(())), Ok(true));
    assert_eq!(probe_outcome(Err(nix::errno::Errno::ESRCH)), Ok(false));
    assert_eq!(probe_outcome(Err(nix::errno::Errno::EPERM)), Ok(false));
}

#[test]
fn accepted_request_needs_no_force() {
    assert_eq!(request_outcome(Ok(())), None);
}

#[test]
fn refused_request_gives_the_reason() {
    assert_eq!(request_outcome(Err(nix::errno::Errno::ESRCH)), Some("ESRCH: No such process".to_string()));
    assert_eq!(
        request_outcome(Err(nix::errno::Errno::EPERM)),
        Some("EPERM: Operation not permitted".to_string())
    );
}

#[test]
fn failed_start_names_the_command() {
    assert_eq!(
        spawn_failed("npm", "No such file or directory (os error 2)"),
        ToolError {
            status: Status::GenericFailure,
            reason: "Failed to spawn process 'npm': No such file or directory (os error 2)".to_string(),
        }
    );
    assert_eq!(spawn_failed("", "").reason, "Failed to spawn process '': ");
}
