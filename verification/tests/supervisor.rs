use native_host::protocol::{effective_timeout, ExecError, Response};
use native_host::supervisor::{WaitOutcome, execute_rejection, execute_response, validate_working_dir};

#[test]
fn timeout_defaults_to_thirty_seconds_at_decode_time() {
    assert_eq!(effective_timeout(None), 30);
    assert_eq!(effective_timeout(Some(5)), 5);
    assert_eq!(effective_timeout(Some(0)), 0);
}

#[test]
fn relative_working_dir_is_refused_before_spawning() {
    let r = validate_working_dir(&b"relative/dir".to_vec(), true);
    assert_eq!(r, Some(ExecError::WorkingDirNotAbsolute));
}

#[test]
fn missing_working_dir_is_refused_before_spawning() {
    let r = validate_working_dir(&b"/no/such/dir".to_vec(), false);
    assert_eq!(r, Some(ExecError::WorkingDirMissing));
}

#[test]
fn existing_absolute_working_dir_is_accepted() {
    assert_eq!(validate_working_dir(&b"/tmp".to_vec(), true), None);
}

#[test]
fn nonzero_exit_code_is_reported_faithfully() {
    // The shell command `exit 7`: completed, code 7, nothing on either pipe.
    let outcome = WaitOutcome::Completed {
        exit_code: Some(7),
        stdout: Vec::new(),
        stderr: Vec::new(),
    };
    match execute_response(outcome, 30) {
        Response::ExecuteResult { success, exit_code, stdout, stderr, error } => {
            assert!(!success);
            assert_eq!(exit_code, Some(7));
            assert!(stdout.is_none());
            assert!(stderr.is_none());
            assert!(error.is_none());
        }
        _ => panic!("a completed execution yields an execute result"),
    }
}

#[test]
fn zero_exit_code_with_output_is_a_success() {
    let outcome = WaitOutcome::Completed {
        exit_code: Some(0),
        stdout: b"hi\n".to_vec(),
        stderr: Vec::new(),
    };
    match execute_response(outcome, 30) {
        Response::ExecuteResult { success, exit_code, stdout, stderr, error } => {
            assert!(success);
            assert_eq!(exit_code, Some(0));
            assert_eq!(stdout, Some(b"hi\n".to_vec()));
            assert!(stderr.is_none());
            assert!(error.is_none());
        }
        _ => panic!("a completed execution yields an execute result"),
    }
}

#[test]
fn signal_ended_command_has_no_exit_code_and_no_success() {
    let outcome = WaitOutcome::Completed {
        exit_code: None,
        stdout: Vec::new(),
        stderr: b"killed\n".to_vec(),
    };
    match execute_response(outcome, 30) {
        Response::ExecuteResult { success, exit_code, stdout, stderr, error } => {
            assert!(!success);
            assert_eq!(exit_code, None);
            assert!(stdout.is_none());
            assert_eq!(stderr, Some(b"killed\n".to_vec()));
            assert!(error.is_none());
        }
        _ => panic!("a completed execution yields an execute result"),
    }
}

#[test]
fn timeout_reports_the_deadline_and_no_partial_output() {
    match execute_response(WaitOutcome::TimedOut, 3) {
        Response::ExecuteResult { success, exit_code, stdout, stderr, error } => {
            assert!(!success);
            assert!(exit_code.is_none());
            assert!(stdout.is_none());
            assert!(stderr.is_none());
            assert_eq!(error, Some(ExecError::CommandTimedOut { timeout_secs: 3 }));
        }
        _ => panic!("a timeout yields an execute result"),
    }
}

#[test]
fn failed_wait_reports_wait_failed() {
    match execute_response(WaitOutcome::WaitFailed, 30) {
        Response::ExecuteResult { success, error, .. } => {
            assert!(!success);
            assert_eq!(error, Some(ExecError::WaitFailed));
        }
        _ => panic!("a failed wait yields an execute result"),
    }
}

#[test]
fn spawn_failure_rejection_carries_no_output() {
    match execute_rejection(ExecError::SpawnFailed) {
        Response::ExecuteResult { success, exit_code, stdout, stderr, error } => {
            assert!(!success);
            assert!(exit_code.is_none());
            assert!(stdout.is_none());
            assert!(stderr.is_none());
            assert_eq!(error, Some(ExecError::SpawnFailed));
        }
        _ => panic!("a rejection is an execute result"),
    }
}
