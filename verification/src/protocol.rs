//! The closed request and response taxonomy of the message channel.
//!
//! A request is one of five tagged variants; a response always carries its
//! success flag and only the fields that belong to its outcome. Failures of
//! a single request are structured values here, never faults: rendering them
//! as human-readable strings is left to the unverified rim of the program.
use vstd::prelude::*;

verus! {

/// One decoded request. Identifiers, paths, commands and file content all
/// travel as UTF-8 bytes.
pub enum Request {
    /// Write `content` at `path`, resolved under the project's root.
    Save { project: Vec<u8>, path: Vec<u8>, content: Vec<u8> },
    /// Run `command` through the shell in `working_dir`, for at most
    /// `timeout_secs` seconds.
    Execute { command: Vec<u8>, working_dir: Vec<u8>, timeout_secs: u64 },
    /// Liveness check.
    Ping,
    /// List the loaded project registry.
    ListProjects,
    /// Report where the registry configuration lives.
    GetConfig,
}

/// Why a save was refused. Each failure is request-local: the dispatch loop
/// goes on to the next request.
#[derive(Clone, Copy, PartialEq, Eq, Structural, Debug)]
pub enum SaveError {
    /// Absolute mode: the supplied path was not absolute.
    NotAbsolute,
    /// Project mode: no project in the registry carries the identifier.
    ProjectNotFound,
    /// The canonical location lies outside the project root.
    PathEscapesRoot,
    /// A missing parent directory could not be created.
    DirectoryCreateFailed,
    /// The file itself could not be written.
    WriteFailed,
}

/// Why a command execution was refused or failed at the supervisor level.
/// A nonzero exit code of the command itself is not among these: that is a
/// structurally successful execution.
#[derive(Clone, Copy, PartialEq, Eq, Structural, Debug)]
pub enum ExecError {
    /// The working directory was not an absolute path.
    WorkingDirNotAbsolute,
    /// The working directory does not exist.
    WorkingDirMissing,
    /// The child process could not be spawned.
    SpawnFailed,
    /// The command outlived its deadline and was terminated and reaped.
    CommandTimedOut { timeout_secs: u64 },
    /// Waiting on the child failed; the child was killed best-effort.
    WaitFailed,
}

/// One entry of a project listing.
pub struct ProjectInfo {
    pub id: Vec<u8>,
    pub name: Vec<u8>,
    pub root: Vec<u8>,
}

/// One encoded response. Every variant carries its success flag; fields that
/// do not belong to the outcome are absent, not empty.
pub enum Response {
    /// The loaded registry: every project, and the default identifier if one
    /// is configured.
    Projects { success: bool, projects: Vec<ProjectInfo>, default_project: Option<Vec<u8>> },
    /// Outcome of a save: the path written on success, the reason otherwise.
    SaveResult { success: bool, full_path: Option<Vec<u8>>, error: Option<SaveError> },
    /// Outcome of a command execution. `success` reflects the command's own
    /// exit status; `error` is set only on supervisor-level failure, and then
    /// no partial output is reported.
    ExecuteResult {
        success: bool,
        exit_code: Option<i32>,
        stdout: Option<Vec<u8>>,
        stderr: Option<Vec<u8>>,
        error: Option<ExecError>,
    },
    /// Where the registry configuration lives.
    Config { success: bool, config_path: Vec<u8> },
    /// Liveness acknowledgment.
    Pong { success: bool },
    /// A fatal diagnostic, emitted once when the registry cannot be loaded.
    Error { success: bool, error: Vec<u8> },
}

/// The response that reports a refused or failed save: unsuccessful, no
/// written path, and exactly the given reason.
pub open spec fn is_save_failure(r: Response, e: SaveError) -> bool {
    &&& r matches Response::SaveResult { success, full_path, error } && success == false
        && full_path is None && error == Some(e)
}

/// The response that reports a completed save of `path`.
pub open spec fn is_save_success(r: Response, path: Seq<u8>) -> bool {
    &&& r matches Response::SaveResult { success, full_path, error } && success == true && (
    full_path matches Some(p) && p@ == path) && error is None
}

/// The response that reports a supervisor-level execution failure: no exit
/// code, no output, exactly the given reason.
pub open spec fn is_exec_failure(r: Response, e: ExecError) -> bool {
    &&& r matches Response::ExecuteResult { success, exit_code, stdout, stderr, error }
        && success == false && exit_code is None && stdout is None && stderr is None && error
        == Some(e)
}

/// Seconds an executed command may run when the request names no timeout.
pub const DEFAULT_TIMEOUT_SECS: u64 = 30;

/// The timeout that governs a command execution: the requested number of
/// seconds, or the documented default when the request omitted the field.
/// The default is applied here, at decode time, so the effective value is
/// always known at dispatch.
pub fn effective_timeout(requested: Option<u64>) -> (r: u64)
    ensures
        requested is Some ==> r == requested->0,
        requested is None ==> r == DEFAULT_TIMEOUT_SECS,
{
    match requested {
        Some(t) => t,
        None => DEFAULT_TIMEOUT_SECS,
    }
}

/// The single diagnostic emitted when the registry configuration cannot be
/// loaded: the dispatch loop never starts, this response goes out, and the
/// process exits.
pub fn load_failure_response(message: Vec<u8>) -> (r: Response)
    ensures
        (r matches Response::Error { success, error } && success == false && error@ == message@),
{
    Response::Error { success: false, error: message }
}

} // verus!
