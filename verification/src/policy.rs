//! What the control plane lets a client do with a session: which commands a runtime
//! state accepts, when a node or placement blocks work, and which commands the agent
//! projection offers.
use vstd::prelude::*;

use crate::states::{
    command_kind_label, command_kind_name, format_runtime_state, runtime_state_name, CommandKind,
    NodePresence, PlacementState, RuntimeSessionState, SessionThreadState, WarningSeverity,
};
use crate::control::ApiError;
use crate::protocol::{json_get_bool, view_as_bool, view_get, JsonValue, JsonView};
use crate::text::{concat3, contains_string, push_str, string_from};

verus! {

/// A request the control plane refuses, with the code that clients match on.
#[derive(Debug)]
pub enum AppError {
    NotFound { code: String, message: String },
    BadRequest { code: String, message: String },
    Auth { code: String, message: String },
}

/// The class of a refusal: what status it is answered with.
pub enum ErrorClass {
    NotFound,
    BadRequest,
    Auth,
}

/// The class, code and message of a refusal.
pub open spec fn error_parts(e: AppError) -> (ErrorClass, Seq<char>, Seq<char>) {
    match e {
        AppError::NotFound { code, message } => (ErrorClass::NotFound, code@, message@),
        AppError::BadRequest { code, message } => (ErrorClass::BadRequest, code@, message@),
        AppError::Auth { code, message } => (ErrorClass::Auth, code@, message@),
    }
}

/// The HTTP status a refusal of this class is answered with.
pub open spec fn status_of(c: ErrorClass) -> u16 {
    match c {
        ErrorClass::NotFound => 404,
        ErrorClass::BadRequest => 400,
        ErrorClass::Auth => 401,
    }
}

/// `b` is the error body that reports code `code` with `message`: no details, and
/// whether it may be retried. Its correlation id is fresh and not stated.
pub open spec fn error_body(b: ApiError, code: Seq<char>, message: Seq<char>, retryable: bool) -> bool {
    &&& b.error_code@ == code
    &&& b.message@ == message
    &&& b.details@ == JsonView::Null
    &&& b.retryable == retryable
}

/// The status and body a refused request is answered with; such a refusal is not
/// worth retrying.
pub fn error_response(e: &AppError) -> (r: (u16, ApiError))
    ensures
        r.0 == status_of(error_parts(*e).0),
        error_body(r.1, error_parts(*e).1, error_parts(*e).2, false),
{
    let (status, code, message) = match e {
        AppError::NotFound { code, message } => (404u16, code, message),
        AppError::BadRequest { code, message } => (400u16, code, message),
        AppError::Auth { code, message } => (401u16, code, message),
    };
    (
        status,
        ApiError {
            error_code: code.clone(),
            message: message.clone(),
            details: JsonValue::Null,
            retryable: false,
            correlation_id: crate::system::new_uuid(),
        },
    )
}

/// A failure of the control plane itself, which clients see without its cause.
pub enum InternalFailure {
    Database,
    Serialization,
    Io,
    TaskJoin,
}

/// The code, message and retry flag a failure of the control plane is reported with;
/// all but a serialization failure may be retried.
pub open spec fn internal_parts(f: InternalFailure) -> (Seq<char>, Seq<char>, bool) {
    match f {
        InternalFailure::Database => ("internal.database"@, "Core database operation failed"@, true),
        InternalFailure::Serialization => ("internal.serialization"@, "Core serialization failed"@, false),
        InternalFailure::Io => ("internal.io"@, "Core IO operation failed"@, true),
        InternalFailure::TaskJoin => ("internal.task_join"@, "Core background task failed"@, true),
    }
}

/// The status (500) and body a failure of the control plane is answered with.
pub fn internal_error_response(f: InternalFailure) -> (r: (u16, ApiError))
    ensures
        r.0 == 500,
        error_body(r.1, internal_parts(f).0, internal_parts(f).1, internal_parts(f).2),
{
    let (code, message, retryable) = match f {
        InternalFailure::Database => ("internal.database", "Core database operation failed", true),
        InternalFailure::Serialization => ("internal.serialization", "Core serialization failed", false),
        InternalFailure::Io => ("internal.io", "Core IO operation failed", true),
        InternalFailure::TaskJoin => ("internal.task_join", "Core background task failed", true),
    };
    (
        500,
        ApiError {
            error_code: string_from(code),
            message: string_from(message),
            details: JsonValue::Null,
            retryable,
            correlation_id: crate::system::new_uuid(),
        },
    )
}

/// A refusal of a malformed or disallowed request.
pub fn bad_request(code: &str, message: &str) -> (e: AppError)
    ensures
        error_parts(e) == (ErrorClass::BadRequest, code@, message@),
{
    AppError::BadRequest { code: string_from(code), message: string_from(message) }
}

/// A refusal for something that does not exist.
pub fn not_found(code: &str, message: &str) -> (e: AppError)
    ensures
        error_parts(e) == (ErrorClass::NotFound, code@, message@),
{
    AppError::NotFound { code: string_from(code), message: string_from(message) }
}

/// A refusal of a caller that could not prove who it is.
pub fn auth_error(code: &str, message: &str) -> (e: AppError)
    ensures
        error_parts(e) == (ErrorClass::Auth, code@, message@),
{
    AppError::Auth { code: string_from(code), message: string_from(message) }
}

/// A warning or fact attached to a placement or session.
pub struct ResourceBadge {
    pub kind: String,
    pub severity: WarningSeverity,
    pub label: String,
}

pub struct BadgeView {
    pub kind: Seq<char>,
    pub severity: WarningSeverity,
    pub label: Seq<char>,
}

impl View for ResourceBadge {
    type V = BadgeView;

    open spec fn view(&self) -> BadgeView {
        BadgeView { kind: self.kind@, severity: self.severity, label: self.label@ }
    }
}

pub open spec fn badges_view(b: Seq<ResourceBadge>) -> Seq<BadgeView> {
    b.map_values(|x: ResourceBadge| x@)
}

pub fn clone_badge(b: &ResourceBadge) -> (r: ResourceBadge)
    ensures
        r@ == b@,
{
    ResourceBadge { kind: b.kind.clone(), severity: b.severity, label: b.label.clone() }
}

/// A workspace bound to a node, as the control plane last saw it validated.
pub struct PlacementSummary {
    pub project_placement_id: String,
    pub project_id: Option<String>,
    pub node_id: String,
    pub display_name: String,
    pub workspace_path: String,
    pub state: PlacementState,
    pub resource_badges: Vec<ResourceBadge>,
    /// Milliseconds since the Unix epoch.
    pub last_validated_at: Option<i64>,
}

/// The runtime that serves one session.
pub struct RuntimeSummary {
    pub runtime_session_id: String,
    pub provider: String,
    pub state: RuntimeSessionState,
    pub resume_supported: bool,
    pub degraded_reason: Option<String>,
    /// Milliseconds since the Unix epoch.
    pub last_runtime_step_at: Option<i64>,
}

/// Commands that need a validated placement without hard blocks.
pub open spec fn requires_startable_placement(kind: CommandKind) -> bool {
    kind == CommandKind::StartRuntime || kind == CommandKind::SendTurn || kind
        == CommandKind::ResumeRuntime
}

pub fn command_requires_startable_placement(kind: CommandKind) -> (b: bool)
    ensures
        b == requires_startable_placement(kind),
{
    match kind {
        CommandKind::StartRuntime | CommandKind::SendTurn | CommandKind::ResumeRuntime => true,
        _ => false,
    }
}

/// Commands that only an attached session may send.
pub open spec fn requires_attached_session(kind: CommandKind) -> bool {
    kind == CommandKind::SendTurn || kind == CommandKind::ResolveApproval
}

pub fn command_requires_attached_session(kind: CommandKind) -> (b: bool)
    ensures
        b == requires_attached_session(kind),
{
    match kind {
        CommandKind::SendTurn | CommandKind::ResolveApproval => true,
        _ => false,
    }
}

/// Commands that need the node to advertise the session's provider.
pub open spec fn requires_provider_capability(kind: CommandKind) -> bool {
    kind == CommandKind::StartRuntime || kind == CommandKind::ResumeRuntime || kind
        == CommandKind::SendTurn || kind == CommandKind::ResolveApproval
}

pub fn command_requires_provider_capability(kind: CommandKind) -> (b: bool)
    ensures
        b == requires_provider_capability(kind),
{
    match kind {
        CommandKind::StartRuntime
        | CommandKind::ResumeRuntime
        | CommandKind::SendTurn
        | CommandKind::ResolveApproval => true,
        _ => false,
    }
}

/// Runtime states from which a stopped, expired or failed runtime can be resumed.
pub open spec fn resumable(state: RuntimeSessionState) -> bool {
    state == RuntimeSessionState::Stopped || state == RuntimeSessionState::Expired || state
        == RuntimeSessionState::Stale || state == RuntimeSessionState::Error || state
        == RuntimeSessionState::Interrupted
}

/// Whether a runtime in `state` accepts a command of `kind`.
pub open spec fn runtime_accepts(state: RuntimeSessionState, kind: CommandKind) -> bool {
    match kind {
        CommandKind::SendTurn => state == RuntimeSessionState::Ready || state
            == RuntimeSessionState::Running,
        CommandKind::ResolveApproval => state == RuntimeSessionState::Blocked,
        CommandKind::InterruptRuntime => state == RuntimeSessionState::Running || state
            == RuntimeSessionState::Blocked,
        CommandKind::StopRuntime => !(state == RuntimeSessionState::Stopped || state
            == RuntimeSessionState::Expired),
        CommandKind::ResumeRuntime => resumable(state),
        CommandKind::StartRuntime
        | CommandKind::ValidateWorkspace
        | CommandKind::RefreshResourceSnapshot => true,
    }
}

/// A runtime can be resumed exactly when it is no longer running a conversation it
/// could go on with: stopped, expired, stale, failed with an error, or interrupted. A
/// runtime that is starting, ready, running, blocked, stopping or resuming refuses a
/// resume, and no runtime that can be resumed takes a turn.
pub proof fn lemma_halted_runtimes_resume(state: RuntimeSessionState)
    ensures
        runtime_accepts(state, CommandKind::ResumeRuntime) == (state == RuntimeSessionState::Stopped
            || state == RuntimeSessionState::Expired || state == RuntimeSessionState::Stale || state
            == RuntimeSessionState::Error || state == RuntimeSessionState::Interrupted),
        runtime_accepts(state, CommandKind::ResumeRuntime) ==> !runtime_accepts(
            state,
            CommandKind::SendTurn,
        ),
{
}

/// What each command asks of the runtime's state: a turn needs a ready or running
/// runtime; resolving an approval needs one blocked on it; an interruption needs one
/// running or blocked; a stop is refused only by a runtime already stopped or expired;
/// starting a runtime, validating a workspace and refreshing resources are always
/// accepted.
pub proof fn lemma_runtime_command_acceptance(state: RuntimeSessionState)
    ensures
        runtime_accepts(state, CommandKind::SendTurn) == (state == RuntimeSessionState::Ready || state
            == RuntimeSessionState::Running),
        runtime_accepts(state, CommandKind::ResolveApproval) == (state == RuntimeSessionState::Blocked),
        runtime_accepts(state, CommandKind::InterruptRuntime) == (state == RuntimeSessionState::Running
            || state == RuntimeSessionState::Blocked),
        runtime_accepts(state, CommandKind::StopRuntime) == !(state == RuntimeSessionState::Stopped
            || state == RuntimeSessionState::Expired),
        runtime_accepts(state, CommandKind::StartRuntime),
        runtime_accepts(state, CommandKind::ValidateWorkspace),
        runtime_accepts(state, CommandKind::RefreshResourceSnapshot),
{
}

/// The message of a refused runtime command.
pub open spec fn runtime_refusal_message(state: RuntimeSessionState, kind: CommandKind) -> Seq<
    char,
> {
    "Runtime state `"@ + runtime_state_name(state) + "` cannot accept `"@ + command_kind_name(kind)
        + "`"@
}

/// Refuses a command that the runtime's state does not accept.
pub fn ensure_runtime_accepts_command(runtime: &RuntimeSummary, kind: CommandKind) -> (r: Result<
    (),
    AppError,
>)
    ensures
        r is Ok <==> runtime_accepts(runtime.state, kind),
        kind == CommandKind::ResumeRuntime ==> (r is Ok <==> (runtime.state == RuntimeSessionState::Stopped
            || runtime.state == RuntimeSessionState::Expired || runtime.state
            == RuntimeSessionState::Stale || runtime.state == RuntimeSessionState::Error
            || runtime.state == RuntimeSessionState::Interrupted)),
        r matches Err(e) ==> error_parts(e) == (
            ErrorClass::BadRequest,
            "runtime.command_not_allowed"@,
            runtime_refusal_message(runtime.state, kind),
        ),
{
    proof {
        lemma_halted_runtimes_resume(runtime.state);
    }
    let state = runtime.state;
    let accepts = match kind {
        CommandKind::SendTurn => state == RuntimeSessionState::Ready || state
            == RuntimeSessionState::Running,
        CommandKind::ResolveApproval => state == RuntimeSessionState::Blocked,
        CommandKind::InterruptRuntime => state == RuntimeSessionState::Running || state
            == RuntimeSessionState::Blocked,
        CommandKind::StopRuntime => !(state == RuntimeSessionState::Stopped || state
            == RuntimeSessionState::Expired),
        CommandKind::ResumeRuntime => state == RuntimeSessionState::Stopped || state
            == RuntimeSessionState::Expired || state == RuntimeSessionState::Stale || state
            == RuntimeSessionState::Error || state == RuntimeSessionState::Interrupted,
        CommandKind::StartRuntime
        | CommandKind::ValidateWorkspace
        | CommandKind::RefreshResourceSnapshot => true,
    };
    if accepts {
        return Ok(());
    }
    let mut message = concat3("Runtime state `", format_runtime_state(state), "` cannot accept `");
    push_str(&mut message, command_kind_label(kind));
    push_str(&mut message, "`");
    Err(AppError::BadRequest { code: string_from("runtime.command_not_allowed"), message })
}

/// Some badge of `badges` blocks work outright.
pub open spec fn has_hard_block(badges: Seq<BadgeView>) -> bool {
    exists|i: int| 0 <= i < badges.len() && badges[i].severity == WarningSeverity::HardBlock
}

pub fn placement_has_hard_block(placement: &PlacementSummary) -> (b: bool)
    ensures
        b == has_hard_block(badges_view(placement.resource_badges@)),
{
    let badges = &placement.resource_badges;
    let mut i: usize = 0;
    while i < badges.len()
        invariant
            i <= badges@.len(),
            badges@ == placement.resource_badges@,
            forall|k: int| 0 <= k < i ==> badges@[k].severity != WarningSeverity::HardBlock,
        decreases badges@.len() - i,
    {
        if badges[i].severity == WarningSeverity::HardBlock {
            assert(badges_view(badges@)[i as int].severity == WarningSeverity::HardBlock);
            assert(0 <= i < badges_view(badges@).len());
            return true;
        }
        i += 1;
    }
    assert forall|k: int| 0 <= k < badges_view(badges@).len() implies badges_view(badges@)[k].severity
        != WarningSeverity::HardBlock by {
        assert(badges_view(badges@)[k] == badges@[k]@);
    }
    false
}

/// A placement on which a runtime may start: validated and free of hard blocks.
pub open spec fn placement_startable(state: PlacementState, badges: Seq<BadgeView>) -> bool {
    state == PlacementState::Validated && !has_hard_block(badges)
}

/// Refuses work on a placement that is not validated or that has a hard block.
pub fn ensure_placement_startable(placement: &PlacementSummary) -> (r: Result<(), AppError>)
    ensures
        r is Ok <==> placement_startable(placement.state, badges_view(placement.resource_badges@)),
        r matches Err(e) ==> error_parts(e) == if placement.state != PlacementState::Validated {
            (
                ErrorClass::BadRequest,
                "placement.not_startable"@,
                "Workspace placement is not startable"@,
            )
        } else {
            (
                ErrorClass::BadRequest,
                "placement.hard_blocked"@,
                "Workspace placement has a hard-blocking resource badge"@,
            )
        },
{
    if placement.state != PlacementState::Validated {
        return Err(bad_request("placement.not_startable", "Workspace placement is not startable"));
    }
    if placement_has_hard_block(placement) {
        return Err(
            bad_request(
                "placement.hard_blocked",
                "Workspace placement has a hard-blocking resource badge",
            ),
        );
    }
    Ok(())
}

/// A node in this presence accepts commands.
pub open spec fn accepts_commands(presence: NodePresence) -> bool {
    presence == NodePresence::Reachable || presence == NodePresence::Stale
}

pub fn node_accepts_commands(presence: NodePresence) -> (b: bool)
    ensures
        b == accepts_commands(presence),
{
    match presence {
        NodePresence::Reachable | NodePresence::Stale => true,
        _ => false,
    }
}

/// Refuses commands for an offline or revoked node.
pub fn ensure_node_commandable(presence: NodePresence) -> (r: Result<(), AppError>)
    ensures
        r is Ok <==> accepts_commands(presence),
        r matches Err(e) ==> error_parts(e) == if presence == NodePresence::Offline {
            (
                ErrorClass::BadRequest,
                "node.offline"@,
                "Node is offline and cannot accept commands"@,
            )
        } else {
            (
                ErrorClass::BadRequest,
                "node.revoked"@,
                "Node has been revoked and cannot accept commands"@,
            )
        },
{
    match presence {
        NodePresence::Reachable | NodePresence::Stale => Ok(()),
        NodePresence::Offline => Err(
            bad_request("node.offline", "Node is offline and cannot accept commands"),
        ),
        NodePresence::Revoked => Err(
            bad_request("node.revoked", "Node has been revoked and cannot accept commands"),
        ),
    }
}

/// The presence of a node given its stored presence and the age of its last heartbeat:
/// a revoked node stays revoked, a node with no heartbeat keeps its stored presence,
/// otherwise the age decides against the two thresholds.
pub open spec fn presence_spec(
    stored: NodePresence,
    heartbeat_age_seconds: Option<i64>,
    stale_after_seconds: i64,
    offline_after_seconds: i64,
) -> NodePresence {
    if stored == NodePresence::Revoked {
        NodePresence::Revoked
    } else {
        match heartbeat_age_seconds {
            Some(age) => if age >= offline_after_seconds {
                NodePresence::Offline
            } else if age >= stale_after_seconds {
                NodePresence::Stale
            } else {
                NodePresence::Reachable
            },
            None => stored,
        }
    }
}

pub fn derive_presence(
    stored: NodePresence,
    heartbeat_age_seconds: Option<i64>,
    stale_after_seconds: i64,
    offline_after_seconds: i64,
) -> (p: NodePresence)
    ensures
        p == presence_spec(stored, heartbeat_age_seconds, stale_after_seconds, offline_after_seconds),
        stored != NodePresence::Revoked ==> (heartbeat_age_seconds matches Some(age) ==> (
        (p == NodePresence::Offline) == (age >= offline_after_seconds))),
{
    proof {
        if let Some(age) = heartbeat_age_seconds {
            lemma_presence_follows_heartbeat_age(stored, age, stale_after_seconds, offline_after_seconds);
        }
    }
    if stored == NodePresence::Revoked {
        return NodePresence::Revoked;
    }
    match heartbeat_age_seconds {
        Some(age) => {
            if age >= offline_after_seconds {
                NodePresence::Offline
            } else if age >= stale_after_seconds {
                NodePresence::Stale
            } else {
                NodePresence::Reachable
            }
        },
        None => stored,
    }
}

/// A node that is not revoked only loses presence as its heartbeat ages: an older
/// heartbeat never reads as more reachable than a newer one.
pub proof fn lemma_presence_monotone_in_age(
    stored: NodePresence,
    younger: i64,
    older: i64,
    stale_after_seconds: i64,
    offline_after_seconds: i64,
)
    requires
        younger <= older,
        stale_after_seconds <= offline_after_seconds,
    ensures
        presence_rank(presence_spec(stored, Some(younger), stale_after_seconds, offline_after_seconds))
            <= presence_rank(
            presence_spec(stored, Some(older), stale_after_seconds, offline_after_seconds),
        ),
{
}

/// A revoked node stays revoked; any other node with a known heartbeat age is offline
/// once the age reaches the offline threshold, stale when it has reached the stale
/// threshold but not the offline one, and reachable while it is under both. A missing
/// heartbeat leaves the stored presence.
pub proof fn lemma_presence_follows_heartbeat_age(
    stored: NodePresence,
    age: i64,
    stale_after_seconds: i64,
    offline_after_seconds: i64,
)
    ensures
        stored == NodePresence::Revoked ==> presence_spec(
            stored,
            Some(age),
            stale_after_seconds,
            offline_after_seconds,
        ) == NodePresence::Revoked,
        stored != NodePresence::Revoked ==> ({
            let p = presence_spec(stored, Some(age), stale_after_seconds, offline_after_seconds);
            &&& (p == NodePresence::Offline) == (age >= offline_after_seconds)
            &&& (p == NodePresence::Stale) == (stale_after_seconds <= age && age < offline_after_seconds)
            &&& (p == NodePresence::Reachable) == (age < stale_after_seconds && age < offline_after_seconds)
            &&& p != NodePresence::Revoked
        }),
        presence_spec(stored, None, stale_after_seconds, offline_after_seconds) == stored,
{
}

/// Reachable, stale, offline and revoked, in order of lost reachability.
pub open spec fn presence_rank(p: NodePresence) -> int {
    match p {
        NodePresence::Reachable => 0,
        NodePresence::Stale => 1,
        NodePresence::Offline => 2,
        NodePresence::Revoked => 3,
    }
}

} // verus!

verus! {

/// The message of a refusal for a provider the node does not advertise.
pub open spec fn capability_missing_message(provider: Seq<char>) -> Seq<char> {
    "Node does not advertise provider capability `"@ + provider + "`"@
}

/// The first check that a command of `kind` for a session fails, in the order the
/// control plane applies them: attachment, runtime state, node presence, placement,
/// provider capability.
pub open spec fn session_command_refusal(
    session_state: SessionThreadState,
    runtime_state: RuntimeSessionState,
    provider: Seq<char>,
    placement_state: PlacementState,
    badges: Seq<BadgeView>,
    kind: CommandKind,
    presence: NodePresence,
    provider_supported: bool,
) -> Option<(ErrorClass, Seq<char>, Seq<char>)> {
    if requires_attached_session(kind) && session_state == SessionThreadState::Detached {
        Some(
            (
                ErrorClass::BadRequest,
                "session.detached"@,
                "Session is detached; attach before sending interactive commands"@,
            ),
        )
    } else if !runtime_accepts(runtime_state, kind) {
        Some(
            (
                ErrorClass::BadRequest,
                "runtime.command_not_allowed"@,
                runtime_refusal_message(runtime_state, kind),
            ),
        )
    } else if presence == NodePresence::Offline {
        Some(
            (
                ErrorClass::BadRequest,
                "node.offline"@,
                "Node is offline and cannot accept commands"@,
            ),
        )
    } else if presence == NodePresence::Revoked {
        Some(
            (
                ErrorClass::BadRequest,
                "node.revoked"@,
                "Node has been revoked and cannot accept commands"@,
            ),
        )
    } else if requires_startable_placement(kind) && placement_state != PlacementState::Validated {
        Some(
            (
                ErrorClass::BadRequest,
                "placement.not_startable"@,
                "Workspace placement is not startable"@,
            ),
        )
    } else if requires_startable_placement(kind) && has_hard_block(badges) {
        Some(
            (
                ErrorClass::BadRequest,
                "placement.hard_blocked"@,
                "Workspace placement has a hard-blocking resource badge"@,
            ),
        )
    } else if requires_provider_capability(kind) && !provider_supported {
        Some(
            (
                ErrorClass::BadRequest,
                "node.capability_missing"@,
                capability_missing_message(provider),
            ),
        )
    } else {
        None
    }
}

/// Decides whether a session may send a command of `kind`, given the presence of its
/// node and whether the node advertises the session's provider.
pub fn ensure_session_commandable(
    session_state: SessionThreadState,
    runtime: &RuntimeSummary,
    placement: &PlacementSummary,
    kind: CommandKind,
    presence: NodePresence,
    provider_supported: bool,
) -> (r: Result<(), AppError>)
    ensures
        match r {
            Ok(()) => session_command_refusal(
                session_state,
                runtime.state,
                runtime.provider@,
                placement.state,
                badges_view(placement.resource_badges@),
                kind,
                presence,
                provider_supported,
            ) is None,
            Err(e) => session_command_refusal(
                session_state,
                runtime.state,
                runtime.provider@,
                placement.state,
                badges_view(placement.resource_badges@),
                kind,
                presence,
                provider_supported,
            ) == Some(error_parts(e)),
        },
{
    if command_requires_attached_session(kind) && session_state == SessionThreadState::Detached {
        return Err(
            bad_request(
                "session.detached",
                "Session is detached; attach before sending interactive commands",
            ),
        );
    }
    ensure_runtime_accepts_command(runtime, kind)?;
    ensure_node_commandable(presence)?;
    if command_requires_startable_placement(kind) {
        ensure_placement_startable(placement)?;
    }
    if command_requires_provider_capability(kind) && !provider_supported {
        let message = concat3(
            "Node does not advertise provider capability `",
            runtime.provider.as_str(),
            "`",
        );
        return Err(
            AppError::BadRequest { code: string_from("node.capability_missing"), message },
        );
    }
    Ok(())
}

/// The commands the agent projection offers for a session, in display order.
pub open spec fn offered_commands(
    session_state: SessionThreadState,
    runtime_state: RuntimeSessionState,
    has_pending_approvals: bool,
    has_active_warnings: bool,
    node_accepts: bool,
    hard_block: bool,
    provider_available: bool,
) -> Seq<Seq<char>> {
    let attached = session_state != SessionThreadState::Detached;
    let can_run = node_accepts && !hard_block && provider_available;
    let s0: Seq<Seq<char>> = if session_state == SessionThreadState::Detached {
        seq!["session.attach"@]
    } else if session_state != SessionThreadState::Stopped {
        seq!["session.detach"@]
    } else {
        seq![]
    };
    let s1 = if (runtime_state == RuntimeSessionState::Ready || runtime_state
        == RuntimeSessionState::Running) && can_run && attached {
        s0.push("session.sendTurn"@)
    } else {
        s0
    };
    let s2 = if (runtime_state == RuntimeSessionState::Running || runtime_state
        == RuntimeSessionState::Blocked) && node_accepts {
        s1.push("runtime.interrupt"@)
    } else {
        s1
    };
    let s3 = if !(runtime_state == RuntimeSessionState::Stopped || runtime_state
        == RuntimeSessionState::Expired) && node_accepts {
        s2.push("runtime.stop"@)
    } else {
        s2
    };
    let s4 = if resumable(runtime_state) && can_run {
        s3.push("runtime.resume"@)
    } else {
        s3
    };
    let s5 = if has_pending_approvals && node_accepts && provider_available && attached {
        s4.push("approval.resolve"@)
    } else {
        s4
    };
    let s6 = if has_active_warnings {
        s5.push("warning.acknowledge"@)
    } else {
        s5
    };
    s6.push("reference.openInInspector"@).push("reference.copy"@)
}

/// Appends an owned copy of `s` to `v`.
fn push_string(v: &mut Vec<String>, s: &str)
    ensures
        crate::text::strings_view(final(v)@) == crate::text::strings_view(old(v)@).push(s@),
{
    v.push(string_from(s));
    assert(crate::text::strings_view(v@) =~= crate::text::strings_view(old(v)@).push(s@));
}

/// The commands the agent projection offers, given the session and runtime states and
/// what blocks work.
pub fn available_commands(
    session_state: SessionThreadState,
    runtime_state: RuntimeSessionState,
    has_pending_approvals: bool,
    has_active_warnings: bool,
    node_accepts_commands: bool,
    placement_has_hard_block: bool,
    provider_available: bool,
) -> (r: Vec<String>)
    ensures
        crate::text::strings_view(r@) == offered_commands(
            session_state,
            runtime_state,
            has_pending_approvals,
            has_active_warnings,
            node_accepts_commands,
            placement_has_hard_block,
            provider_available,
        ),
{
    let mut commands: Vec<String> = Vec::new();
    assert(crate::text::strings_view(commands@) =~= seq![]);
    let session_is_attached = session_state != SessionThreadState::Detached;
    if session_state == SessionThreadState::Detached {
        push_string(&mut commands, "session.attach");
    } else if session_state != SessionThreadState::Stopped {
        push_string(&mut commands, "session.detach");
    }
    let can_run = node_accepts_commands && !placement_has_hard_block && provider_available;
    if (runtime_state == RuntimeSessionState::Ready || runtime_state == RuntimeSessionState::Running)
        && can_run && session_is_attached {
        push_string(&mut commands, "session.sendTurn");
    }
    if (runtime_state == RuntimeSessionState::Running || runtime_state
        == RuntimeSessionState::Blocked) && node_accepts_commands {
        push_string(&mut commands, "runtime.interrupt");
    }
    if !(runtime_state == RuntimeSessionState::Stopped || runtime_state
        == RuntimeSessionState::Expired) && node_accepts_commands {
        push_string(&mut commands, "runtime.stop");
    }
    if (runtime_state == RuntimeSessionState::Stopped || runtime_state
        == RuntimeSessionState::Expired || runtime_state == RuntimeSessionState::Stale
        || runtime_state == RuntimeSessionState::Error || runtime_state
        == RuntimeSessionState::Interrupted) && can_run {
        push_string(&mut commands, "runtime.resume");
    }
    if has_pending_approvals && node_accepts_commands && provider_available && session_is_attached {
        push_string(&mut commands, "approval.resolve");
    }
    if has_active_warnings {
        push_string(&mut commands, "warning.acknowledge");
    }
    push_string(&mut commands, "reference.openInInspector");
    push_string(&mut commands, "reference.copy");
    commands
}

} // verus!

verus! {

/// The projection offers a command exactly when the control plane would accept it:
/// every command that a session would be allowed to send is offered, and every
/// offered command is accepted once the placement is validated (a resolution also
/// needs the runtime to be waiting on the approval).
pub proof fn lemma_offered_commands_match_acceptance(
    session_state: SessionThreadState,
    runtime_state: RuntimeSessionState,
    provider: Seq<char>,
    placement_state: PlacementState,
    badges: Seq<BadgeView>,
    presence: NodePresence,
    provider_supported: bool,
    has_pending_approvals: bool,
    has_active_warnings: bool,
)
    ensures
        ({
            let offered = offered_commands(
                session_state,
                runtime_state,
                has_pending_approvals,
                has_active_warnings,
                accepts_commands(presence),
                has_hard_block(badges),
                provider_supported,
            );
            let refusal = |kind: CommandKind|
                session_command_refusal(
                    session_state,
                    runtime_state,
                    provider,
                    placement_state,
                    badges,
                    kind,
                    presence,
                    provider_supported,
                );
            &&& refusal(CommandKind::SendTurn) is None ==> offered.contains("session.sendTurn"@)
            &&& refusal(CommandKind::InterruptRuntime) is None <==> offered.contains(
                "runtime.interrupt"@,
            )
            &&& refusal(CommandKind::StopRuntime) is None <==> offered.contains("runtime.stop"@)
            &&& refusal(CommandKind::ResumeRuntime) is None ==> offered.contains(
                "runtime.resume"@,
            )
            &&& (refusal(CommandKind::ResolveApproval) is None && has_pending_approvals)
                ==> offered.contains("approval.resolve"@)
            &&& (offered.contains("session.sendTurn"@) && placement_state
                == PlacementState::Validated) ==> refusal(CommandKind::SendTurn) is None
            &&& (offered.contains("runtime.resume"@) && placement_state
                == PlacementState::Validated) ==> refusal(CommandKind::ResumeRuntime) is None
            &&& (offered.contains("approval.resolve"@) && runtime_state
                == RuntimeSessionState::Blocked) ==> refusal(CommandKind::ResolveApproval) is None
        }),
{
    reveal_strlit("session.attach");
    reveal_strlit("session.detach");
    reveal_strlit("session.sendTurn");
    reveal_strlit("runtime.interrupt");
    reveal_strlit("runtime.stop");
    reveal_strlit("runtime.resume");
    reveal_strlit("approval.resolve");
    reveal_strlit("warning.acknowledge");
    reveal_strlit("reference.openInInspector");
    reveal_strlit("reference.copy");
    assert("session.sendTurn"@.len() != "session.attach"@.len());
    assert("session.sendTurn"@.len() != "session.detach"@.len());
    assert("session.sendTurn"@.len() != "runtime.interrupt"@.len());
    assert("session.sendTurn"@.len() != "runtime.stop"@.len());
    assert("session.sendTurn"@.len() != "runtime.resume"@.len());
    assert("session.sendTurn"@[0] != "approval.resolve"@[0]);
    assert("session.sendTurn"@.len() != "warning.acknowledge"@.len());
    assert("session.sendTurn"@.len() != "reference.openInInspector"@.len());
    assert("session.sendTurn"@.len() != "reference.copy"@.len());
    assert("runtime.interrupt"@.len() != "session.attach"@.len());
    assert("runtime.interrupt"@.len() != "session.detach"@.len());
    assert("runtime.interrupt"@.len() != "session.sendTurn"@.len());
    assert("runtime.interrupt"@.len() != "runtime.stop"@.len());
    assert("runtime.interrupt"@.len() != "runtime.resume"@.len());
    assert("runtime.interrupt"@.len() != "approval.resolve"@.len());
    assert("runtime.interrupt"@.len() != "warning.acknowledge"@.len());
    assert("runtime.interrupt"@.len() != "reference.openInInspector"@.len());
    assert("runtime.interrupt"@.len() != "reference.copy"@.len());
    assert("runtime.stop"@.len() != "session.attach"@.len());
    assert("runtime.stop"@.len() != "session.detach"@.len());
    assert("runtime.stop"@.len() != "session.sendTurn"@.len());
    assert("runtime.stop"@.len() != "runtime.interrupt"@.len());
    assert("runtime.stop"@.len() != "runtime.resume"@.len());
    assert("runtime.stop"@.len() != "approval.resolve"@.len());
    assert("runtime.stop"@.len() != "warning.acknowledge"@.len());
    assert("runtime.stop"@.len() != "reference.openInInspector"@.len());
    assert("runtime.stop"@.len() != "reference.copy"@.len());
    assert("runtime.resume"@[0] != "session.attach"@[0]);
    assert("runtime.resume"@[0] != "session.detach"@[0]);
    assert("runtime.resume"@.len() != "session.sendTurn"@.len());
    assert("runtime.resume"@.len() != "runtime.interrupt"@.len());
    assert("runtime.resume"@.len() != "runtime.stop"@.len());
    assert("runtime.resume"@.len() != "approval.resolve"@.len());
    assert("runtime.resume"@.len() != "warning.acknowledge"@.len());
    assert("runtime.resume"@.len() != "reference.openInInspector"@.len());
    assert("runtime.resume"@[1] != "reference.copy"@[1]);
    assert("approval.resolve"@.len() != "session.attach"@.len());
    assert("approval.resolve"@.len() != "session.detach"@.len());
    assert("approval.resolve"@[0] != "session.sendTurn"@[0]);
    assert("approval.resolve"@.len() != "runtime.interrupt"@.len());
    assert("approval.resolve"@.len() != "runtime.stop"@.len());
    assert("approval.resolve"@.len() != "runtime.resume"@.len());
    assert("approval.resolve"@.len() != "warning.acknowledge"@.len());
    assert("approval.resolve"@.len() != "reference.openInInspector"@.len());
    assert("approval.resolve"@.len() != "reference.copy"@.len());
    let attached = session_state != SessionThreadState::Detached;
    let node_accepts = accepts_commands(presence);
    let can_run = node_accepts && !has_hard_block(badges) && provider_supported;
    let s0: Seq<Seq<char>> = if session_state == SessionThreadState::Detached {
        seq!["session.attach"@]
    } else if session_state != SessionThreadState::Stopped {
        seq!["session.detach"@]
    } else {
        seq![]
    };
    let s1 = if (runtime_state == RuntimeSessionState::Ready || runtime_state
        == RuntimeSessionState::Running) && can_run && attached {
        s0.push("session.sendTurn"@)
    } else {
        s0
    };
    let s2 = if (runtime_state == RuntimeSessionState::Running || runtime_state
        == RuntimeSessionState::Blocked) && node_accepts {
        s1.push("runtime.interrupt"@)
    } else {
        s1
    };
    let s3 = if !(runtime_state == RuntimeSessionState::Stopped || runtime_state
        == RuntimeSessionState::Expired) && node_accepts {
        s2.push("runtime.stop"@)
    } else {
        s2
    };
    let s4 = if resumable(runtime_state) && can_run {
        s3.push("runtime.resume"@)
    } else {
        s3
    };
    let s5 = if has_pending_approvals && node_accepts && provider_supported && attached {
        s4.push("approval.resolve"@)
    } else {
        s4
    };
    let s6 = if has_active_warnings {
        s5.push("warning.acknowledge"@)
    } else {
        s5
    };
    let s7 = s6.push("reference.openInInspector"@);
    let s8 = s7.push("reference.copy"@);
    assert(s8 == offered_commands(
        session_state,
        runtime_state,
        has_pending_approvals,
        has_active_warnings,
        node_accepts,
        has_hard_block(badges),
        provider_supported,
    ));
    assert(!s0.contains("session.sendTurn"@)) by {
        if s0.contains("session.sendTurn"@) {
            let k = choose|k: int| 0 <= k < s0.len() && s0[k] == "session.sendTurn"@;
        }
    }
    crate::text::lemma_contains_after_push(s0, "session.sendTurn"@, "session.sendTurn"@);
    crate::text::lemma_contains_after_push(s1, "runtime.interrupt"@, "session.sendTurn"@);
    crate::text::lemma_contains_after_push(s2, "runtime.stop"@, "session.sendTurn"@);
    crate::text::lemma_contains_after_push(s3, "runtime.resume"@, "session.sendTurn"@);
    crate::text::lemma_contains_after_push(s4, "approval.resolve"@, "session.sendTurn"@);
    crate::text::lemma_contains_after_push(s5, "warning.acknowledge"@, "session.sendTurn"@);
    crate::text::lemma_contains_after_push(s6, "reference.openInInspector"@, "session.sendTurn"@);
    crate::text::lemma_contains_after_push(s7, "reference.copy"@, "session.sendTurn"@);
    assert(!s0.contains("runtime.interrupt"@)) by {
        if s0.contains("runtime.interrupt"@) {
            let k = choose|k: int| 0 <= k < s0.len() && s0[k] == "runtime.interrupt"@;
        }
    }
    crate::text::lemma_contains_after_push(s0, "session.sendTurn"@, "runtime.interrupt"@);
    crate::text::lemma_contains_after_push(s1, "runtime.interrupt"@, "runtime.interrupt"@);
    crate::text::lemma_contains_after_push(s2, "runtime.stop"@, "runtime.interrupt"@);
    crate::text::lemma_contains_after_push(s3, "runtime.resume"@, "runtime.interrupt"@);
    crate::text::lemma_contains_after_push(s4, "approval.resolve"@, "runtime.interrupt"@);
    crate::text::lemma_contains_after_push(s5, "warning.acknowledge"@, "runtime.interrupt"@);
    crate::text::lemma_contains_after_push(s6, "reference.openInInspector"@, "runtime.interrupt"@);
    crate::text::lemma_contains_after_push(s7, "reference.copy"@, "runtime.interrupt"@);
    assert(!s0.contains("runtime.stop"@)) by {
        if s0.contains("runtime.stop"@) {
            let k = choose|k: int| 0 <= k < s0.len() && s0[k] == "runtime.stop"@;
        }
    }
    crate::text::lemma_contains_after_push(s0, "session.sendTurn"@, "runtime.stop"@);
    crate::text::lemma_contains_after_push(s1, "runtime.interrupt"@, "runtime.stop"@);
    crate::text::lemma_contains_after_push(s2, "runtime.stop"@, "runtime.stop"@);
    crate::text::lemma_contains_after_push(s3, "runtime.resume"@, "runtime.stop"@);
    crate::text::lemma_contains_after_push(s4, "approval.resolve"@, "runtime.stop"@);
    crate::text::lemma_contains_after_push(s5, "warning.acknowledge"@, "runtime.stop"@);
    crate::text::lemma_contains_after_push(s6, "reference.openInInspector"@, "runtime.stop"@);
    crate::text::lemma_contains_after_push(s7, "reference.copy"@, "runtime.stop"@);
    assert(!s0.contains("runtime.resume"@)) by {
        if s0.contains("runtime.resume"@) {
            let k = choose|k: int| 0 <= k < s0.len() && s0[k] == "runtime.resume"@;
        }
    }
    crate::text::lemma_contains_after_push(s0, "session.sendTurn"@, "runtime.resume"@);
    crate::text::lemma_contains_after_push(s1, "runtime.interrupt"@, "runtime.resume"@);
    crate::text::lemma_contains_after_push(s2, "runtime.stop"@, "runtime.resume"@);
    crate::text::lemma_contains_after_push(s3, "runtime.resume"@, "runtime.resume"@);
    crate::text::lemma_contains_after_push(s4, "approval.resolve"@, "runtime.resume"@);
    crate::text::lemma_contains_after_push(s5, "warning.acknowledge"@, "runtime.resume"@);
    crate::text::lemma_contains_after_push(s6, "reference.openInInspector"@, "runtime.resume"@);
    crate::text::lemma_contains_after_push(s7, "reference.copy"@, "runtime.resume"@);
    assert(!s0.contains("approval.resolve"@)) by {
        if s0.contains("approval.resolve"@) {
            let k = choose|k: int| 0 <= k < s0.len() && s0[k] == "approval.resolve"@;
        }
    }
    crate::text::lemma_contains_after_push(s0, "session.sendTurn"@, "approval.resolve"@);
    crate::text::lemma_contains_after_push(s1, "runtime.interrupt"@, "approval.resolve"@);
    crate::text::lemma_contains_after_push(s2, "runtime.stop"@, "approval.resolve"@);
    crate::text::lemma_contains_after_push(s3, "runtime.resume"@, "approval.resolve"@);
    crate::text::lemma_contains_after_push(s4, "approval.resolve"@, "approval.resolve"@);
    crate::text::lemma_contains_after_push(s5, "warning.acknowledge"@, "approval.resolve"@);
    crate::text::lemma_contains_after_push(s6, "reference.openInInspector"@, "approval.resolve"@);
    crate::text::lemma_contains_after_push(s7, "reference.copy"@, "approval.resolve"@);
}

} // verus!

verus! {

/// The badge that warns of a node that is not reachable.
pub open spec fn presence_warning_spec(presence: NodePresence) -> Option<BadgeView> {
    match presence {
        NodePresence::Reachable => None,
        NodePresence::Stale => Some(
            BadgeView {
                kind: "node_stale"@,
                severity: WarningSeverity::Warning,
                label: "Node heartbeat is stale"@,
            },
        ),
        NodePresence::Offline => Some(
            BadgeView {
                kind: "node_offline"@,
                severity: WarningSeverity::HardBlock,
                label: "Node is offline"@,
            },
        ),
        NodePresence::Revoked => Some(
            BadgeView {
                kind: "node_revoked"@,
                severity: WarningSeverity::HardBlock,
                label: "Node is revoked"@,
            },
        ),
    }
}

fn badge(kind: &str, severity: WarningSeverity, label: &str) -> (b: ResourceBadge)
    ensures
        b@ == (BadgeView { kind: kind@, severity, label: label@ }),
{
    ResourceBadge { kind: string_from(kind), severity, label: string_from(label) }
}

pub fn node_presence_warning(presence: NodePresence) -> (r: Option<ResourceBadge>)
    ensures
        match r {
            Some(b) => presence_warning_spec(presence) == Some(b@),
            None => presence_warning_spec(presence) is None,
        },
{
    match presence {
        NodePresence::Reachable => None,
        NodePresence::Stale => Some(
            badge("node_stale", WarningSeverity::Warning, "Node heartbeat is stale"),
        ),
        NodePresence::Offline => Some(
            badge("node_offline", WarningSeverity::HardBlock, "Node is offline"),
        ),
        NodePresence::Revoked => Some(
            badge("node_revoked", WarningSeverity::HardBlock, "Node is revoked"),
        ),
    }
}

/// The badges of `badges` that are more than informational and not acknowledged.
pub open spec fn unacknowledged_warnings(badges: Seq<BadgeView>, acknowledged: Seq<Seq<char>>) -> Seq<
    BadgeView,
>
    decreases badges.len(),
{
    if badges.len() == 0 {
        seq![]
    } else {
        let rest = unacknowledged_warnings(badges.drop_last(), acknowledged);
        let b = badges.last();
        if b.severity != WarningSeverity::Info && !acknowledged.contains(b.kind) {
            rest.push(b)
        } else {
            rest
        }
    }
}

/// The warnings a session shows: the placement's unacknowledged warnings, then a
/// `runtime_degraded` warning carrying the runtime's degradation reason unless that
/// kind is acknowledged.
pub open spec fn active_warnings_spec(
    badges: Seq<BadgeView>,
    degraded_reason: Option<Seq<char>>,
    acknowledged: Seq<Seq<char>>,
) -> Seq<BadgeView> {
    let placement_warnings = unacknowledged_warnings(badges, acknowledged);
    match degraded_reason {
        Some(reason) => if !acknowledged.contains("runtime_degraded"@) {
            placement_warnings.push(
                BadgeView {
                    kind: "runtime_degraded"@,
                    severity: WarningSeverity::Warning,
                    label: reason,
                },
            )
        } else {
            placement_warnings
        },
        None => placement_warnings,
    }
}

pub fn active_warnings(
    placement: &PlacementSummary,
    runtime: &RuntimeSummary,
    acknowledged: &Vec<String>,
) -> (r: Vec<ResourceBadge>)
    ensures
        badges_view(r@) == active_warnings_spec(
            badges_view(placement.resource_badges@),
            crate::protocol::opt_view(runtime.degraded_reason),
            crate::text::strings_view(acknowledged@),
        ),
{
    let badges = &placement.resource_badges;
    let ghost ack = crate::text::strings_view(acknowledged@);
    let mut out: Vec<ResourceBadge> = Vec::new();
    let mut i: usize = 0;
    while i < badges.len()
        invariant
            i <= badges@.len(),
            badges@ == placement.resource_badges@,
            ack == crate::text::strings_view(acknowledged@),
            badges_view(out@) == unacknowledged_warnings(badges_view(badges@.take(i as int)), ack),
        decreases badges@.len() - i,
    {
        let b = &badges[i];
        assert(badges_view(badges@.take(i + 1)).drop_last() =~= badges_view(badges@.take(i as int)));
        assert(badges_view(badges@.take(i + 1)).last() == b@);
        if b.severity != WarningSeverity::Info && !contains_string(acknowledged, b.kind.as_str()) {
            out.push(clone_badge(b));
            assert(badges_view(out@) =~= unacknowledged_warnings(badges_view(badges@.take(i as int)), ack).push(b@));
        }
        i += 1;
    }
    assert(badges@.take(badges@.len() as int) =~= badges@);
    if let Some(reason) = &runtime.degraded_reason {
        if !contains_string(acknowledged, "runtime_degraded") {
            let w = ResourceBadge {
                kind: string_from("runtime_degraded"),
                severity: WarningSeverity::Warning,
                label: reason.clone(),
            };
            let ghost before = badges_view(out@);
            out.push(w);
            assert(badges_view(out@) =~= before.push(w@));
        }
    }
    out
}

/// Refuses to resolve an approval that is not pending in the session.
pub fn ensure_pending_approval(pending: &Vec<String>, approval_id: &str) -> (r: Result<(), AppError>)
    ensures
        r is Ok <==> crate::text::strings_view(pending@).contains(approval_id@),
        r matches Err(e) ==> error_parts(e) == (
            ErrorClass::BadRequest,
            "approval.not_pending"@,
            "Approval is not pending for this session"@,
        ),
{
    if contains_string(pending, approval_id) {
        Ok(())
    } else {
        Err(bad_request("approval.not_pending", "Approval is not pending for this session"))
    }
}

/// A capability is available unless its value says `"available": false`.
pub open spec fn capability_available_spec(value: JsonView) -> bool {
    match view_as_bool(view_get(value, "available"@)) {
        Some(b) => b,
        None => true,
    }
}

pub fn capability_is_available(value: &JsonValue) -> (b: bool)
    ensures
        b == capability_available_spec(value@),
{
    match json_get_bool(value, "available") {
        Some(b) => b,
        None => true,
    }
}

/// What attaching or detaching a session does: a stopped session refuses, a session
/// already in the target state is left as it is, any other is moved to the target.
pub fn session_attachment_change(
    current: SessionThreadState,
    target: SessionThreadState,
) -> (r: Result<Option<SessionThreadState>, AppError>)
    ensures
        current == SessionThreadState::Stopped ==> (r matches Err(e) && error_parts(e) == (
            ErrorClass::BadRequest,
            "session.stopped"@,
            "Stopped sessions cannot be attached or detached"@,
        )),
        current != SessionThreadState::Stopped && current == target ==> r == Ok::<
            Option<SessionThreadState>,
            AppError,
        >(None),
        current != SessionThreadState::Stopped && current != target ==> r == Ok::<
            Option<SessionThreadState>,
            AppError,
        >(Some(target)),
{
    if current == SessionThreadState::Stopped {
        return Err(bad_request("session.stopped", "Stopped sessions cannot be attached or detached"));
    }
    if current == target {
        return Ok(None);
    }
    Ok(Some(target))
}

/// Refuses to acknowledge a warning kind that is blank or not among the session's
/// active warnings.
pub fn ensure_warning_acknowledgeable(warning_kind: &str, active: &Vec<ResourceBadge>) -> (r: Result<
    (),
    AppError,
>)
    ensures
        crate::text::trim(warning_kind@).len() == 0 ==> (r matches Err(e) && error_parts(e) == (
            ErrorClass::BadRequest,
            "validation.warning_kind_required"@,
            "Warning kind is required"@,
        )),
        crate::text::trim(warning_kind@).len() > 0 ==> (r is Ok <==> exists|i: int|
            0 <= i < active@.len() && active@[i].kind@ == warning_kind@),
        crate::text::trim(warning_kind@).len() > 0 && r is Err ==> (r matches Err(e)
            && error_parts(e) == (
            ErrorClass::BadRequest,
            "warning.not_active"@,
            "Warning is not currently active for this session"@,
        )),
{
    let trimmed = crate::text::trim_str(warning_kind);
    if trimmed.unicode_len() == 0 {
        return Err(bad_request("validation.warning_kind_required", "Warning kind is required"));
    }
    let mut i: usize = 0;
    while i < active.len()
        invariant
            i <= active@.len(),
            crate::text::trim(warning_kind@).len() > 0,
            forall|k: int| 0 <= k < i ==> active@[k].kind@ != warning_kind@,
        decreases active@.len() - i,
    {
        if crate::text::str_eq(active[i].kind.as_str(), warning_kind) {
            return Ok(());
        }
        i += 1;
    }
    Err(bad_request("warning.not_active", "Warning is not currently active for this session"))
}


/// The runtime states that idle expiry applies to.
pub open spec fn expirable(state: RuntimeSessionState) -> bool {
    state == RuntimeSessionState::Ready || state == RuntimeSessionState::Running
        || state == RuntimeSessionState::Blocked || state == RuntimeSessionState::Stale
}

/// A runtime has expired when expiry is switched on (a positive number of seconds), it is
/// ready, running, blocked or stale, and its last activity lies at or before the cutoff,
/// that many seconds before now (times in milliseconds).
pub open spec fn idle_expired_spec(
    state: RuntimeSessionState,
    last_activity_ms: int,
    now_ms: int,
    expiry_seconds: int,
) -> bool {
    expiry_seconds > 0 && expirable(state) && last_activity_ms <= now_ms - expiry_seconds * 1000
}

/// A runtime that has expired by idleness at one time has expired at every later time.
pub proof fn lemma_idle_expiry_persists(
    state: RuntimeSessionState,
    last_activity_ms: int,
    now_ms: int,
    later_ms: int,
    expiry_seconds: int,
)
    requires
        idle_expired_spec(state, last_activity_ms, now_ms, expiry_seconds),
        now_ms <= later_ms,
    ensures
        idle_expired_spec(state, last_activity_ms, later_ms, expiry_seconds),
{
}

/// With expiry switched on, a runtime idle for at least the expiry period is expired
/// exactly when it is still live (ready, running, blocked on an approval, or stale):
/// one that is starting, stopping, stopped, expired, interrupted, resuming or failed is
/// never expired. A runtime active within the period, or any runtime while expiry is
/// off, is not expired.
pub proof fn lemma_idle_expiry_takes_live_runtimes(
    state: RuntimeSessionState,
    last_activity_ms: int,
    now_ms: int,
    expiry_seconds: int,
)
    ensures
        expiry_seconds > 0 && last_activity_ms <= now_ms - expiry_seconds * 1000 ==> (idle_expired_spec(
            state,
            last_activity_ms,
            now_ms,
            expiry_seconds,
        ) == (state == RuntimeSessionState::Ready || state == RuntimeSessionState::Running || state
            == RuntimeSessionState::Blocked || state == RuntimeSessionState::Stale)),
        last_activity_ms > now_ms - expiry_seconds * 1000 ==> !idle_expired_spec(
            state,
            last_activity_ms,
            now_ms,
            expiry_seconds,
        ),
        expiry_seconds <= 0 ==> !idle_expired_spec(state, last_activity_ms, now_ms, expiry_seconds),
{
}

pub fn runtime_idle_expired(
    state: RuntimeSessionState,
    last_activity_ms: i64,
    now_ms: i64,
    expiry_seconds: i64,
) -> (r: bool)
    ensures
        r == idle_expired_spec(state, last_activity_ms as int, now_ms as int, expiry_seconds as int),
        expiry_seconds > 0 && last_activity_ms <= now_ms - expiry_seconds * 1000 ==> (r == (state
            == RuntimeSessionState::Ready || state == RuntimeSessionState::Running || state
            == RuntimeSessionState::Blocked || state == RuntimeSessionState::Stale)),
{
    proof {
        lemma_idle_expiry_takes_live_runtimes(
            state,
            last_activity_ms as int,
            now_ms as int,
            expiry_seconds as int,
        );
    }
    if expiry_seconds <= 0 {
        return false;
    }
    let active = match state {
        RuntimeSessionState::Ready | RuntimeSessionState::Running | RuntimeSessionState::Blocked
        | RuntimeSessionState::Stale => true,
        _ => false,
    };
    if !active {
        return false;
    }
    let cutoff: i128 = (now_ms as i128) - (expiry_seconds as i128) * 1000;
    (last_activity_ms as i128) <= cutoff
}

/// The payload of the event that expires an idle runtime.
pub open spec fn idle_expiry_payload_spec(expiry_seconds: int) -> JsonView {
    crate::protocol::obj3(
        "code"@,
        JsonView::Str("runtime.idle_expired"@),
        "message"@,
        JsonView::Str(
            "Runtime expired after "@ + crate::text::signed_decimal(expiry_seconds)
                + " seconds without runtime activity"@,
        ),
        "expiry_seconds"@,
        JsonView::Number(crate::text::signed_decimal(expiry_seconds)),
    )
}

pub fn idle_expiry_payload(expiry_seconds: i64) -> (r: JsonValue)
    ensures
        r@ == idle_expiry_payload_spec(expiry_seconds as int),
{
    let digits = crate::text::string_of(crate::text::i64_to_chars(expiry_seconds).as_slice());
    let message = concat3("Runtime expired after ", digits.as_str(), " seconds without runtime activity");
    crate::protocol::json_obj3(
        "code",
        crate::protocol::json_str("runtime.idle_expired"),
        "message",
        JsonValue::Str(message),
        "expiry_seconds",
        JsonValue::Number(digits),
    )
}


/// The warning that other live sessions use the same workspace.
pub open spec fn same_workspace_badge(active_count: int) -> BadgeView {
    BadgeView {
        kind: "same_workspace_active"@,
        severity: WarningSeverity::Warning,
        label: "Workspace already has "@ + crate::text::signed_decimal(active_count) + " active session(s)"@,
    }
}

/// The badges of `badges` without any same-workspace warning.
pub open spec fn without_same_workspace(badges: Seq<BadgeView>) -> Seq<BadgeView>
    decreases badges.len(),
{
    if badges.len() == 0 {
        seq![]
    } else {
        let rest = without_same_workspace(badges.drop_last());
        if badges.last().kind == "same_workspace_active"@ {
            rest
        } else {
            rest.push(badges.last())
        }
    }
}

/// A placement's badges as the control plane shows them: its stored same-workspace
/// warning replaced by one that counts the other live sessions on the workspace, if any.
pub open spec fn core_badges_spec(badges: Seq<BadgeView>, active_count: int) -> Seq<BadgeView> {
    if active_count > 0 {
        without_same_workspace(badges).push(same_workspace_badge(active_count))
    } else {
        without_same_workspace(badges)
    }
}

pub fn with_core_resource_badges(badges: &Vec<ResourceBadge>, active_count: i64) -> (r: Vec<ResourceBadge>)
    ensures
        badges_view(r@) == core_badges_spec(badges_view(badges@), active_count as int),
{
    let ghost bv = badges_view(badges@);
    let mut r: Vec<ResourceBadge> = Vec::new();
    let mut i: usize = 0;
    while i < badges.len()
        invariant
            i <= badges@.len(),
            bv == badges_view(badges@),
            badges_view(r@) == without_same_workspace(bv.take(i as int)),
        decreases badges@.len() - i,
    {
        assert(bv.take(i + 1).drop_last() =~= bv.take(i as int));
        assert(bv[i as int] == badges@[i as int]@);
        if !crate::text::str_eq(badges[i].kind.as_str(), "same_workspace_active") {
            let ghost before = r@;
            let b = clone_badge(&badges[i]);
            r.push(b);
            assert(badges_view(r@) =~= badges_view(before).push(b@));
        }
        i += 1;
    }
    assert(bv.take(badges@.len() as int) =~= bv);
    if active_count > 0 {
        let mut label = string_from("Workspace already has ");
        push_str(&mut label, crate::text::string_of(crate::text::i64_to_chars(active_count).as_slice()).as_str());
        push_str(&mut label, " active session(s)");
        let ghost before = r@;
        let b = ResourceBadge { kind: string_from("same_workspace_active"), severity: WarningSeverity::Warning, label };
        r.push(b);
        assert(badges_view(r@) =~= badges_view(before).push(b@));
    }
    r
}

} // verus!
