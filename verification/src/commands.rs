//! The commands the control plane issues for a session: starting its runtime, sending a
//! turn, and the lifecycle commands, each addressed to the node that hosts it.
use vstd::prelude::*;

use crate::policy::{
    badges_view, bad_request, ensure_session_commandable, error_parts, session_command_refusal, AppError,
    ErrorClass, PlacementSummary, RuntimeSummary,
};
use crate::protocol::{
    json_obj0, json_obj2, json_str, obj0, obj2, push_member, ActorRef, ActorView, CommandEnvelope,
    CommandView, CortexRef, JsonValue, JsonView, RefView,
};
use crate::states::{CommandKind, NodePresence, SessionThreadState};
use crate::text::{concat2, string_from, trim, trim_str};

verus! {

/// The session a command is for, and the node that hosts its placement.
pub struct SessionTarget {
    pub session_thread_id: String,
    pub runtime_session_id: String,
    pub project_placement_id: String,
    pub node_id: String,
}

/// `c` is a command of `kind` from the local user for session `t`, sent to the node
/// that hosts it, with these causes and payload, and no sources. Its id and the time it
/// was issued are fresh and not stated.
pub open spec fn session_command(
    c: CommandView,
    t: SessionTarget,
    kind: CommandKind,
    correlation_id: Seq<char>,
    cause_refs: Seq<RefView>,
    payload: JsonView,
) -> bool {
    &&& c.kind == kind
    &&& c.target_node_id == t.node_id@
    &&& c.actor_ref == ActorView::LocalUser { actor_id: None }
    &&& c.session_thread_id == Some(t.session_thread_id@)
    &&& c.runtime_session_id == Some(t.runtime_session_id@)
    &&& c.project_placement_id == Some(t.project_placement_id@)
    &&& c.source_refs.len() == 0
    &&& c.cause_refs == cause_refs
    &&& c.correlation_id == correlation_id
    &&& c.payload == payload
}

fn command_for(t: &SessionTarget, kind: CommandKind, correlation_id: &str, cause_refs: Vec<CortexRef>, payload: JsonValue) -> (c:
    CommandEnvelope)
    ensures
        session_command(
            c@,
            *t,
            kind,
            correlation_id@,
            crate::protocol::refs_view(cause_refs@),
            payload@,
        ),
{
    CommandEnvelope {
        command_id: crate::system::new_uuid(),
        kind,
        target_node_id: t.node_id.clone(),
        actor_ref: ActorRef::LocalUser { actor_id: None },
        session_thread_id: Some(t.session_thread_id.clone()),
        runtime_session_id: Some(t.runtime_session_id.clone()),
        project_placement_id: Some(t.project_placement_id.clone()),
        source_refs: Vec::new(),
        cause_refs,
        issued_at: crate::system::now_millis(),
        correlation_id: string_from(correlation_id),
        payload,
    }
}

/// The provider a new session runs with: the one asked for, else the built-in one.
pub open spec fn session_provider_spec(requested: Option<Seq<char>>) -> Seq<char> {
    match requested {
        Some(p) => p,
        None => "fake"@,
    }
}

pub fn session_provider(requested: &Option<String>) -> (r: String)
    ensures
        r@ == session_provider_spec(crate::protocol::opt_view(*requested)),
{
    match requested {
        Some(p) => p.clone(),
        None => string_from("fake"),
    }
}

/// The title of a new session: the one asked for, else one naming its workspace.
pub open spec fn session_title_spec(requested: Option<Seq<char>>, display_name: Seq<char>) -> Seq<char> {
    match requested {
        Some(t) => t,
        None => "Session for "@ + display_name,
    }
}

pub fn session_title(requested: &Option<String>, display_name: &str) -> (r: String)
    ensures
        r@ == session_title_spec(crate::protocol::opt_view(*requested), display_name@),
{
    match requested {
        Some(t) => t.clone(),
        None => concat2("Session for ", display_name),
    }
}

/// The command that starts a new session's runtime with `provider` in the placement's
/// workspace.
pub fn start_runtime_command(t: &SessionTarget, provider: &str, workspace_path: &str, correlation_id: &str) -> (c:
    CommandEnvelope)
    ensures
        session_command(
            c@,
            *t,
            CommandKind::StartRuntime,
            correlation_id@,
            seq![],
            obj2("provider"@, JsonView::Str(provider@), "workspace_path"@, JsonView::Str(workspace_path@)),
        ),
{
    let payload = json_obj2("provider", json_str(provider), "workspace_path", json_str(workspace_path));
    let causes: Vec<CortexRef> = Vec::new();
    assert(crate::protocol::refs_view(causes@) =~= seq![]);
    command_for(t, CommandKind::StartRuntime, correlation_id, causes, payload)
}

/// The command that sends a turn to a session, and the id of the new turn; content that
/// is only whitespace is refused. The turn id is fresh and not stated.
pub fn send_turn_command(t: &SessionTarget, content: &str, correlation_id: &str) -> (r: Result<
    (CommandEnvelope, String),
    AppError,
>)
    ensures
        r is Err <==> trim(content@).len() == 0,
        r matches Err(e) ==> error_parts(e) == (
            ErrorClass::BadRequest,
            "validation.empty_turn"@,
            "Turn content cannot be empty"@,
        ),
        r matches Ok((c, turn_id)) ==> session_command(
            c@,
            *t,
            CommandKind::SendTurn,
            correlation_id@,
            seq![RefView::Session { session_thread_id: t.session_thread_id@ }],
            obj2("content"@, JsonView::Str(content@), "turn_id"@, JsonView::Str(turn_id@)),
        ),
{
    if trim_str(content).as_str().is_empty() {
        return Err(bad_request("validation.empty_turn", "Turn content cannot be empty"));
    }
    let turn_id = crate::system::new_uuid();
    let payload = json_obj2("content", json_str(content), "turn_id", json_str(turn_id.as_str()));
    let mut causes: Vec<CortexRef> = Vec::new();
    causes.push(CortexRef::Session { session_thread_id: t.session_thread_id.clone() });
    assert(crate::protocol::refs_view(causes@) =~= seq![
        RefView::Session { session_thread_id: t.session_thread_id@ },
    ]);
    let c = command_for(t, CommandKind::SendTurn, correlation_id, causes, payload);
    Ok((c, turn_id))
}

/// The payload of a lifecycle command: empty, except that resuming names the provider,
/// the workspace, and the provider's resume reference when one is stored.
pub open spec fn lifecycle_payload_spec(
    kind: CommandKind,
    provider: Seq<char>,
    workspace_path: Seq<char>,
    resume_ref: Option<JsonView>,
) -> JsonView {
    if kind != CommandKind::ResumeRuntime {
        obj0()
    } else {
        let base = seq![
            ("provider"@, JsonView::Str(provider)),
            ("workspace_path"@, JsonView::Str(workspace_path)),
        ];
        JsonView::Object(
            match resume_ref {
                Some(r) => base.push(("provider_resume_ref"@, r)),
                None => base,
            },
        )
    }
}

pub fn lifecycle_command_payload(
    kind: CommandKind,
    provider: &str,
    workspace_path: &str,
    resume_ref: Option<JsonValue>,
) -> (r: JsonValue)
    ensures
        r@ == lifecycle_payload_spec(
            kind,
            provider@,
            workspace_path@,
            match resume_ref {
                Some(v) => Some(v@),
                None => None,
            },
        ),
{
    if kind != CommandKind::ResumeRuntime {
        return json_obj0();
    }
    let mut es: Vec<(String, JsonValue)> = Vec::new();
    assert(crate::protocol::entries_view(es@, 0) =~= seq![]);
    push_member(&mut es, "provider", json_str(provider));
    push_member(&mut es, "workspace_path", json_str(workspace_path));
    let ghost resume_view = match &resume_ref {
        Some(v) => Some(v@),
        None => None::<JsonView>,
    };
    match resume_ref {
        Some(v) => push_member(&mut es, "provider_resume_ref", v),
        None => {},
    }
    let ghost ev = crate::protocol::entries_view(es@, es@.len());
    let r = crate::protocol::json_object(es);
    assert(ev =~= match lifecycle_payload_spec(kind, provider@, workspace_path@, resume_view) {
        JsonView::Object(e) => e,
        _ => seq![],
    });
    r
}

/// A lifecycle command (interrupt, stop or resume) for the session's runtime.
pub fn lifecycle_command(t: &SessionTarget, kind: CommandKind, payload: JsonValue, correlation_id: &str) -> (c:
    CommandEnvelope)
    ensures
        session_command(c@, *t, kind, correlation_id@, seq![], payload@),
{
    let causes: Vec<CortexRef> = Vec::new();
    assert(crate::protocol::refs_view(causes@) =~= seq![]);
    command_for(t, kind, correlation_id, causes, payload)
}


/// A placement request as it is recorded: display name and workspace path, each trimmed
/// and required.
pub fn placement_request(display_name: &str, workspace_path: &str) -> (r: Result<(String, String), AppError>)
    ensures
        trim(display_name@).len() == 0 ==> (r matches Err(e) && error_parts(e) == (
            ErrorClass::BadRequest,
            "validation.display_name_required"@,
            "Display name is required"@,
        )),
        trim(display_name@).len() > 0 && trim(workspace_path@).len() == 0 ==> (r matches Err(e)
            && error_parts(e) == (
            ErrorClass::BadRequest,
            "validation.workspace_path_required"@,
            "Workspace path is required"@,
        )),
        trim(display_name@).len() > 0 && trim(workspace_path@).len() > 0 ==> (r matches Ok((n, p)) && n@
            == trim(display_name@) && p@ == trim(workspace_path@)),
{
    let name = trim_str(display_name);
    if name.as_str().is_empty() {
        return Err(bad_request("validation.display_name_required", "Display name is required"));
    }
    let path = trim_str(workspace_path);
    if path.as_str().is_empty() {
        return Err(bad_request("validation.workspace_path_required", "Workspace path is required"));
    }
    Ok((name, path))
}

/// `c` is a placement command of `kind` from the local user to `node_id` for placement
/// `placement_id`, caused by nothing, sourced from the placement, carrying its name and
/// path. Its id and the time it was issued are fresh and not stated.
pub open spec fn placement_command_spec(
    c: CommandView,
    kind: CommandKind,
    node_id: Seq<char>,
    placement_id: Seq<char>,
    display_name: Seq<char>,
    workspace_path: Seq<char>,
    correlation_id: Seq<char>,
) -> bool {
    &&& c.kind == kind
    &&& c.target_node_id == node_id
    &&& c.actor_ref == ActorView::LocalUser { actor_id: None }
    &&& c.session_thread_id is None
    &&& c.runtime_session_id is None
    &&& c.project_placement_id == Some(placement_id)
    &&& c.source_refs == seq![RefView::Placement { placement_id }]
    &&& c.cause_refs.len() == 0
    &&& c.correlation_id == correlation_id
    &&& c.payload == obj2(
        "display_name"@,
        JsonView::Str(display_name),
        "workspace_path"@,
        JsonView::Str(workspace_path),
    )
}

/// The command that asks a node to validate a placement's workspace, or to refresh its
/// resource snapshot.
pub fn placement_command(
    kind: CommandKind,
    node_id: &str,
    placement_id: &str,
    display_name: &str,
    workspace_path: &str,
    correlation_id: &str,
) -> (c: CommandEnvelope)
    ensures
        placement_command_spec(c@, kind, node_id@, placement_id@, display_name@, workspace_path@, correlation_id@),
{
    let mut sources: Vec<CortexRef> = Vec::new();
    sources.push(CortexRef::Placement { placement_id: string_from(placement_id) });
    assert(crate::protocol::refs_view(sources@) =~= seq![
        RefView::Placement { placement_id: placement_id@ },
    ]);
    let causes: Vec<CortexRef> = Vec::new();
    assert(crate::protocol::refs_view(causes@) =~= seq![]);
    CommandEnvelope {
        command_id: crate::system::new_uuid(),
        kind,
        target_node_id: string_from(node_id),
        actor_ref: ActorRef::LocalUser { actor_id: None },
        session_thread_id: None,
        runtime_session_id: None,
        project_placement_id: Some(string_from(placement_id)),
        source_refs: sources,
        cause_refs: causes,
        issued_at: crate::system::now_millis(),
        correlation_id: string_from(correlation_id),
        payload: json_obj2("display_name", json_str(display_name), "workspace_path", json_str(workspace_path)),
    }
}


/// Sends a turn to a session when it may take one: blank content is refused first, then
/// the session's own refusals in their order (detached session, runtime state, node
/// presence, placement, provider); otherwise the send-turn command and its new turn id.
pub fn send_turn_to_session(
    t: &SessionTarget,
    content: &str,
    correlation_id: &str,
    session_state: SessionThreadState,
    runtime: &RuntimeSummary,
    placement: &PlacementSummary,
    presence: NodePresence,
    provider_supported: bool,
) -> (r: Result<(CommandEnvelope, String), AppError>)
    ensures
        ({
            let refusal = session_command_refusal(
                session_state,
                runtime.state,
                runtime.provider@,
                placement.state,
                badges_view(placement.resource_badges@),
                CommandKind::SendTurn,
                presence,
                provider_supported,
            );
            &&& (trim(content@).len() == 0 ==> (r matches Err(e) && error_parts(e) == (
                ErrorClass::BadRequest,
                "validation.empty_turn"@,
                "Turn content cannot be empty"@,
            )))
            &&& (trim(content@).len() > 0 && refusal is Some ==> (r matches Err(e) && Some(error_parts(e))
                == refusal))
            &&& (trim(content@).len() > 0 && refusal is None ==> (r matches Ok((c, turn_id))
                && session_command(
                c@,
                *t,
                CommandKind::SendTurn,
                correlation_id@,
                seq![RefView::Session { session_thread_id: t.session_thread_id@ }],
                obj2("content"@, JsonView::Str(content@), "turn_id"@, JsonView::Str(turn_id@)),
            )))
        }),
{
    if trim_str(content).as_str().is_empty() {
        return Err(bad_request("validation.empty_turn", "Turn content cannot be empty"));
    }
    match ensure_session_commandable(session_state, runtime, placement, CommandKind::SendTurn, presence, provider_supported) {
        Err(e) => Err(e),
        Ok(()) => send_turn_command(t, content, correlation_id),
    }
}

} // verus!
