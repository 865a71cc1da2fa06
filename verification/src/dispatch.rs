//! The dispatch loop's decision core.
//!
//! The loop itself is a two-state machine — awaiting a request, or
//! terminated — and runs strictly one request at a time. Routing a decoded
//! request either answers it outright or yields the one effectful action
//! (a sandboxed write, a supervised execution) the unverified rim must
//! perform; the follow-up steps here turn what the rim observed back into
//! the one response the request is owed. Request-local failures always come
//! back as structured responses; only a closed or desynchronized channel
//! terminates the loop.
use vstd::prelude::*;

use crate::bytes::clone_bytes;
use crate::protocol::{
    ExecError,
    ProjectInfo,
    Request,
    Response,
    SaveError,
    is_exec_failure,
    is_save_failure,
    is_save_success,
};
use crate::registry::{Project, Registry};
use crate::sandbox::{
    CanonicalEvidence,
    SEPARATOR,
    evidence_allows,
    is_absolute,
    is_absolute_path,
    is_within,
    join_under_root,
    joined,
    lemma_joined_path_is_within_root,
    sanitize_rel_path,
    sanitized,
    save_rejection,
};
use crate::supervisor::ExecPlan;

verus! {

/// State of the dispatch loop.
#[derive(Clone, Copy, PartialEq, Eq, Structural, Debug)]
pub enum LoopState {
    /// Blocked on the inbound stream, ready for one request.
    AwaitingRequest,
    /// The session is over; nothing is read or written any more.
    Terminated,
}

/// What one iteration of the loop observed on the channel.
#[derive(Clone, Copy, PartialEq, Eq, Structural, Debug)]
pub enum LoopEvent {
    /// A whole frame arrived and decoded into a request.
    RequestDecoded,
    /// The stream ended, before or inside a frame: the peer is gone.
    EndOfStream,
    /// A whole frame arrived but did not decode: the channel is
    /// desynchronized beyond recovery.
    DecodeFailed,
    /// The response went out; the loop may read the next request.
    ResponseWritten,
    /// The response could not be written.
    WriteFailed,
}

/// The loop's transition relation: termination is absorbing, and an awaiting
/// loop terminates exactly on end of stream, a decode failure, or a write
/// failure — every other event leaves it awaiting the next request.
pub fn loop_transition(state: LoopState, event: LoopEvent) -> (r: LoopState)
    ensures
        state is Terminated ==> r is Terminated,
        state is AwaitingRequest ==> (r is Terminated <==> (event is EndOfStream
            || event is DecodeFailed || event is WriteFailed)),
{
    match state {
        LoopState::Terminated => LoopState::Terminated,
        LoopState::AwaitingRequest => match event {
            LoopEvent::EndOfStream => LoopState::Terminated,
            LoopEvent::DecodeFailed => LoopState::Terminated,
            LoopEvent::WriteFailed => LoopState::Terminated,
            LoopEvent::RequestDecoded => LoopState::AwaitingRequest,
            LoopEvent::ResponseWritten => LoopState::AwaitingRequest,
        },
    }
}

/// A resolved save: the project root that must contain the write, and the
/// joined target path.
pub struct SavePlan {
    pub root: Vec<u8>,
    pub full_path: Vec<u8>,
}

/// First step of a save: either already refused, or resolved to a plan whose
/// containment the rim must still evidence.
pub enum SaveStep {
    Rejected(Response),
    Proceed(SavePlan),
}

/// How the filesystem answered the write the plan called for.
pub enum WriteOutcome {
    /// The content now stands at the target, fully overwriting what was there.
    Written,
    /// A missing parent directory could not be created; nothing was written.
    DirCreateFailed,
    /// The write itself failed.
    WriteFailed,
}

/// The one listing entry that mirrors a registered project.
pub open spec fn project_info_matches(info: ProjectInfo, p: Project) -> bool {
    info.id@ == p.id@ && info.name@ == p.name@ && info.root@ == p.root@
}

/// The two optional identifiers hold the same bytes.
pub open spec fn option_bytes_like(a: Option<Vec<u8>>, b: Option<Vec<u8>>) -> bool {
    match a {
        Some(x) => b matches Some(y) && x@ == y@,
        None => b is None,
    }
}

/// The successful response that lists exactly the registry's projects, in
/// registry order, with its default identifier.
pub open spec fn is_projects_listing(r: Response, reg: Registry) -> bool {
    &&& r matches Response::Projects { success, projects, default_project } && success == true
        && projects@.len() == reg.projects@.len() && (forall|j: int|
        0 <= j < reg.projects@.len() ==> project_info_matches(
            #[trigger] projects@[j],
            reg.projects@[j],
        )) && option_bytes_like(default_project, reg.default_project)
}

/// The successful response that reports the configuration location.
pub open spec fn is_config_response(r: Response, path: Seq<u8>) -> bool {
    &&& r matches Response::Config { success, config_path } && success == true && config_path@
        == path
}

/// The plan a save of `rel` in project `project` must resolve to: the root
/// of the registered project of that identifier, and the weakly normalized
/// path joined under it.
pub open spec fn plan_matches(reg: Registry, project: Seq<u8>, rel: Seq<u8>, plan: SavePlan) -> bool {
    exists|i: int|
        0 <= i < reg.projects@.len() && reg.projects@[i].id@ == project && plan.root@
            == reg.projects@[i].root@ && plan.full_path@ == joined(
            reg.projects@[i].root@,
            sanitized(rel),
        )
}

/// Lists every registered project and the configured default.
pub fn handle_list_projects(reg: &Registry) -> (r: Response)
    ensures
        is_projects_listing(r, *reg),
{
    let mut projects: Vec<ProjectInfo> = Vec::new();
    let mut i: usize = 0;
    while i < reg.projects.len()
        invariant
            i <= reg.projects@.len(),
            projects@.len() == i,
            forall|j: int|
                0 <= j < i ==> project_info_matches(#[trigger] projects@[j], reg.projects@[j]),
        decreases reg.projects@.len() - i,
    {
        let entry = ProjectInfo {
            id: clone_bytes(&reg.projects[i].id),
            name: clone_bytes(&reg.projects[i].name),
            root: clone_bytes(&reg.projects[i].root),
        };
        projects.push(entry);
        i = i + 1;
    }
    let default_project = match &reg.default_project {
        Some(d) => Some(clone_bytes(d)),
        None => None,
    };
    Response::Projects { success: true, projects, default_project }
}

/// Reports where the registry configuration lives.
pub fn handle_get_config(config_path: &Vec<u8>) -> (r: Response)
    ensures
        is_config_response(r, config_path@),
{
    Response::Config { success: true, config_path: clone_bytes(config_path) }
}

/// Resolves a project-scoped save: an unknown identifier is refused with
/// `ProjectNotFound` before anything else happens; a known one yields the
/// plan for the joined, weakly normalized target.
pub fn handle_save(reg: &Registry, project: &Vec<u8>, rel_path: &Vec<u8>) -> (r: SaveStep)
    requires
        reg.roots_fit(rel_path@.len() + 1),
    ensures
        !reg.has_project(project@) ==> (r matches SaveStep::Rejected(resp) && is_save_failure(
            resp,
            SaveError::ProjectNotFound,
        )),
        reg.has_project(project@) ==> (r matches SaveStep::Proceed(plan) && plan_matches(
            *reg,
            project@,
            rel_path@,
            plan,
        )),
{
    match reg.lookup(project) {
        None => SaveStep::Rejected(save_rejection(SaveError::ProjectNotFound)),
        Some(p) => {
            proof {
                let i = choose|i: int|
                    0 <= i < reg.projects@.len() && reg.projects@[i] == *p && p.id@ == project@;
                assert(reg.projects@[i].root@.len() + (rel_path@.len() + 1) <= usize::MAX);
                assert(sanitized(rel_path@).len() <= rel_path@.len());
            }
            let rel = sanitize_rel_path(rel_path);
            let full_path = join_under_root(&p.root, &rel);
            let plan = SavePlan { root: clone_bytes(&p.root), full_path };
            proof {
                let i = choose|i: int|
                    0 <= i < reg.projects@.len() && reg.projects@[i] == *p && p.id@ == project@;
                assert(0 <= i < reg.projects@.len() && reg.projects@[i].id@ == project@
                    && plan.root@ == reg.projects@[i].root@ && plan.full_path@ == joined(
                    reg.projects@[i].root@,
                    sanitized(rel_path@),
                ));
            }
            SaveStep::Proceed(plan)
        },
    }
}

/// Second step of a save: holds the canonical evidence the rim gathered
/// against the plan's root. Escaping evidence refuses the write with
/// `PathEscapesRoot`; contained (or not yet checkable) evidence lets it
/// proceed.
pub fn save_containment_step(plan: &SavePlan, ev: &CanonicalEvidence) -> (r: Option<Response>)
    ensures
        evidence_allows(plan.root@, *ev) ==> r is None,
        !evidence_allows(plan.root@, *ev) ==> (r matches Some(resp) && is_save_failure(
            resp,
            SaveError::PathEscapesRoot,
        )),
{
    if crate::sandbox::containment_allows(&plan.root, ev) {
        None
    } else {
        Some(save_rejection(SaveError::PathEscapesRoot))
    }
}

/// Last step of a save: the response the write's outcome is owed — the full
/// target path on success, the structured reason otherwise.
pub fn save_completion(plan: &SavePlan, outcome: &WriteOutcome) -> (r: Response)
    ensures
        *outcome is Written ==> is_save_success(r, plan.full_path@),
        *outcome is DirCreateFailed ==> is_save_failure(r, SaveError::DirectoryCreateFailed),
        *outcome is WriteFailed ==> is_save_failure(r, SaveError::WriteFailed),
{
    match outcome {
        WriteOutcome::Written => Response::SaveResult {
            success: true,
            full_path: Some(clone_bytes(&plan.full_path)),
            error: None,
        },
        WriteOutcome::DirCreateFailed => save_rejection(SaveError::DirectoryCreateFailed),
        WriteOutcome::WriteFailed => save_rejection(SaveError::WriteFailed),
    }
}

/// Law: the target a save resolves to always lies textually under its
/// project root, whatever the requested path was (stated for roots that do
/// not themselves end with the separator). An escape can therefore only
/// arise through `..` segments or links inside the target, which
/// canonicalization resolves and the containment step then refuses.
pub proof fn lemma_plan_target_under_root(
    reg: Registry,
    project: Seq<u8>,
    rel: Seq<u8>,
    plan: SavePlan,
)
    requires
        plan_matches(reg, project, rel, plan),
        plan.root@.len() > 0,
        plan.root@[plan.root@.len() - 1] != SEPARATOR,
    ensures
        is_within(plan.root@, plan.full_path@),
{
    lemma_joined_path_is_within_root(plan.root@, sanitized(rel));
}

/// What routing one request must yield: a finished response, or the one
/// effectful action the rim performs next.
pub enum Action {
    Respond(Response),
    RunSave(SavePlan),
    RunExecute(ExecPlan),
}

/// Routing a save: refused outright for an unknown project, otherwise the
/// resolved plan.
pub open spec fn save_dispatch_ok(reg: Registry, project: Seq<u8>, rel: Seq<u8>, r: Action) -> bool {
    if reg.has_project(project) {
        r matches Action::RunSave(plan) && plan_matches(reg, project, rel, plan)
    } else {
        r matches Action::Respond(resp) && is_save_failure(resp, SaveError::ProjectNotFound)
    }
}

/// Routing an execution: refused outright for a relative working directory,
/// otherwise the plan with the command, directory and timeout unchanged.
pub open spec fn exec_dispatch_ok(command: Seq<u8>, dir: Seq<u8>, timeout_secs: u64, r: Action) -> bool {
    if is_absolute(dir) {
        r matches Action::RunExecute(p) && p.command@ == command && p.working_dir@ == dir
            && p.timeout_secs == timeout_secs
    } else {
        r matches Action::Respond(resp) && is_exec_failure(resp, ExecError::WorkingDirNotAbsolute)
    }
}

/// Routes one decoded request to its handler.
pub fn dispatch_request(reg: &Registry, config_path: &Vec<u8>, req: &Request) -> (r: Action)
    requires
        *req matches Request::Save { project, path, content } ==> reg.roots_fit(path@.len() + 1),
    ensures
        *req matches Request::Save { project, path, content } ==> save_dispatch_ok(
            *reg,
            project@,
            path@,
            r,
        ),
        *req matches Request::Execute { command, working_dir, timeout_secs } ==> exec_dispatch_ok(
            command@,
            working_dir@,
            timeout_secs,
            r,
        ),
        *req is Ping ==> (r matches Action::Respond(resp) && resp matches Response::Pong {
            success,
        } && success == true),
        *req is ListProjects ==> (r matches Action::Respond(resp) && is_projects_listing(
            resp,
            *reg,
        )),
        *req is GetConfig ==> (r matches Action::Respond(resp) && is_config_response(
            resp,
            config_path@,
        )),
{
    match req {
        Request::Save { project, path, content: _ } => match handle_save(reg, project, path) {
            SaveStep::Rejected(resp) => Action::Respond(resp),
            SaveStep::Proceed(plan) => Action::RunSave(plan),
        },
        Request::Execute { command, working_dir, timeout_secs } => {
            if is_absolute_path(working_dir) {
                Action::RunExecute(
                    ExecPlan {
                        command: clone_bytes(command),
                        working_dir: clone_bytes(working_dir),
                        timeout_secs: *timeout_secs,
                    },
                )
            } else {
                Action::Respond(
                    crate::supervisor::execute_rejection(ExecError::WorkingDirNotAbsolute),
                )
            }
        },
        Request::Ping => Action::Respond(Response::Pong { success: true }),
        Request::ListProjects => Action::Respond(handle_list_projects(reg)),
        Request::GetConfig => Action::Respond(handle_get_config(config_path)),
    }
}

} // verus!
