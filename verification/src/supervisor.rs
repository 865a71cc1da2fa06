//! The decision half of the process supervisor.
//!
//! Spawning, waiting and reaping a child process are operating-system work
//! and live outside this crate; what is verified here is everything the
//! supervisor decides: when a request may spawn at all, and which response
//! each outcome of the wait yields. Success of an execution means only that
//! the command ran to completion within its deadline — its own exit code is
//! reported faithfully, nonzero included — while a timeout or wait failure
//! is a supervisor-level error that carries no partial output.
use vstd::prelude::*;

use crate::protocol::{ExecError, Response, is_exec_failure};
use crate::sandbox::{is_absolute, is_absolute_path};

verus! {

/// A validated plan to run one command: what to run, where, and for at most
/// how many seconds.
pub struct ExecPlan {
    pub command: Vec<u8>,
    pub working_dir: Vec<u8>,
    pub timeout_secs: u64,
}

/// How the supervised wait on the child ended.
pub enum WaitOutcome {
    /// The command ran to completion within the deadline. `exit_code` is its
    /// own exit status, absent when a signal ended it; the pipes were drained
    /// fully after the wait.
    Completed { exit_code: Option<i32>, stdout: Vec<u8>, stderr: Vec<u8> },
    /// The deadline elapsed first; the child was terminated and reaped.
    TimedOut,
    /// The wait itself failed; the child was killed best-effort.
    WaitFailed,
}

/// Validates the working directory before anything is spawned: it must be an
/// absolute path, and it must exist (`dir_exists` reports what the
/// filesystem showed). On `None` the spawn may proceed.
pub fn validate_working_dir(dir: &Vec<u8>, dir_exists: bool) -> (r: Option<ExecError>)
    ensures
        !is_absolute(dir@) ==> r == Some(ExecError::WorkingDirNotAbsolute),
        is_absolute(dir@) && !dir_exists ==> r == Some(ExecError::WorkingDirMissing),
        is_absolute(dir@) && dir_exists ==> r is None,
{
    if !is_absolute_path(dir) {
        Some(ExecError::WorkingDirNotAbsolute)
    } else if !dir_exists {
        Some(ExecError::WorkingDirMissing)
    } else {
        None
    }
}

/// The response that refuses or abandons an execution for the given
/// supervisor-level reason, with no exit code and no partial output.
pub fn execute_rejection(e: ExecError) -> (r: Response)
    ensures
        is_exec_failure(r, e),
{
    Response::ExecuteResult {
        success: false,
        exit_code: None,
        stdout: None,
        stderr: None,
        error: Some(e),
    }
}

/// Maps the outcome of the supervised wait to the one response it owes the
/// caller. A completed run is successful exactly when the command exited
/// with code 0; its captured streams are reported only when nonempty. A
/// timeout reports `CommandTimedOut` with the deadline that elapsed, and a
/// failed wait reports `WaitFailed`; neither carries partial output.
pub fn execute_response(outcome: WaitOutcome, timeout_secs: u64) -> (r: Response)
    ensures
        outcome matches WaitOutcome::Completed { exit_code, stdout, stderr } ==> (r matches Response::ExecuteResult {
            success: s,
            exit_code: c,
            stdout: out,
            stderr: err,
            error: e,
        } && s == (exit_code == Some(0i32)) && c == exit_code && (if stdout@.len() == 0 {
            out is None
        } else {
            out matches Some(o) && o@ == stdout@
        }) && (if stderr@.len() == 0 {
            err is None
        } else {
            err matches Some(o) && o@ == stderr@
        }) && e is None),
        outcome is TimedOut ==> is_exec_failure(
            r,
            ExecError::CommandTimedOut { timeout_secs },
        ),
        outcome is WaitFailed ==> is_exec_failure(r, ExecError::WaitFailed),
{
    match outcome {
        WaitOutcome::Completed { exit_code, stdout, stderr } => {
            let success = match exit_code {
                Some(c) => c == 0,
                None => false,
            };
            let out = if stdout.len() == 0 {
                None
            } else {
                Some(stdout)
            };
            let err = if stderr.len() == 0 {
                None
            } else {
                Some(stderr)
            };
            Response::ExecuteResult { success, exit_code, stdout: out, stderr: err, error: None }
        },
        WaitOutcome::TimedOut => execute_rejection(ExecError::CommandTimedOut { timeout_secs }),
        WaitOutcome::WaitFailed => execute_rejection(ExecError::WaitFailed),
    }
}

} // verus!
