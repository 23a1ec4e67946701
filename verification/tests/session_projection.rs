use uprava_core::agent::agent_projection;
use uprava_core::commands::{
    lifecycle_command, lifecycle_command_payload, placement_command, placement_request, send_turn_command, session_provider, session_title,
    start_runtime_command, SessionTarget,
};
use uprava_core::client_log::{client_log_record, client_user_agent, ClientLogRequest};
use uprava_core::policy::{
    bad_request, error_response, internal_error_response, not_found, with_core_resource_badges,
    InternalFailure, PlacementSummary,
    ResourceBadge, RuntimeSummary,
};
use uprava_core::control::should_open_control_channel;
use uprava_core::protocol::{ActorRef, CortexRef, EventEnvelope, JsonValue, ScopeRef};
use uprava_core::session_views::{build_artifact_tree, MessageRecord};
use uprava_core::states::{
    ClientLogLevel, CommandKind, EventKind, MessageRole, NodePresence, PlacementState, RuntimeSessionState,
    SessionThreadState, WarningSeverity,
};

fn get<'a>(value: &'a JsonValue, key: &str) -> Option<&'a JsonValue> {
    match value {
        JsonValue::Object(entries) => entries.iter().find(|(k, _)| k == key).map(|(_, v)| v),
        _ => None,
    }
}

fn get_str<'a>(value: &'a JsonValue, key: &str) -> Option<&'a str> {
    match get(value, key) {
        Some(JsonValue::Str(s)) => Some(s.as_str()),
        _ => None,
    }
}

fn event(event_id: &str, seq: i64, kind: EventKind, turn_id: Option<&str>, payload: JsonValue) -> EventEnvelope {
    EventEnvelope {
        event_id: event_id.to_owned(),
        command_id: None,
        correlation_id: None,
        actor_ref: ActorRef::System,
        scope_ref: ScopeRef::Runtime { runtime_session_id: "runtime-1".to_owned() },
        node_id: Some("node-1".to_owned()),
        runtime_session_id: Some("runtime-1".to_owned()),
        session_thread_id: Some("session-1".to_owned()),
        turn_id: turn_id.map(str::to_owned),
        seq,
        kind,
        happened_at: 0,
        source_refs: vec![CortexRef::Runtime { runtime_session_id: "runtime-1".to_owned() }],
        evidence_refs: vec![],
        cause_refs: vec![],
        result_refs: vec![],
        payload,
    }
}

fn message(id: &str, role: MessageRole, content: &str) -> MessageRecord {
    MessageRecord {
        message_id: id.to_owned(),
        session_thread_id: "session-1".to_owned(),
        role,
        content: content.to_owned(),
        source_event_id: None,
    }
}

fn placement() -> PlacementSummary {
    PlacementSummary {
        project_placement_id: "placement-1".to_owned(),
        project_id: None,
        node_id: "node-1".to_owned(),
        display_name: "repo".to_owned(),
        workspace_path: "/srv/repo".to_owned(),
        state: PlacementState::Validated,
        resource_badges: vec![ResourceBadge {
            kind: "dirty_workspace".to_owned(),
            severity: WarningSeverity::Warning,
            label: "Dirty workspace".to_owned(),
        }],
        last_validated_at: None,
    }
}

fn runtime() -> RuntimeSummary {
    RuntimeSummary {
        runtime_session_id: "runtime-1".to_owned(),
        provider: "codex".to_owned(),
        state: RuntimeSessionState::Running,
        resume_supported: true,
        degraded_reason: None,
        last_runtime_step_at: None,
    }
}

fn session_events() -> Vec<EventEnvelope> {
    vec![
        event("event-1", 1, EventKind::TurnStarted, Some("turn-1"), JsonValue::Object(vec![])),
        event(
            "event-2",
            2,
            EventKind::ApprovalRequested,
            Some("turn-1"),
            JsonValue::Object(vec![
                ("approval_id".to_owned(), JsonValue::Str("approval-1".to_owned())),
                ("prompt".to_owned(), JsonValue::Str("Allow?".to_owned())),
            ]),
        ),
    ]
}

fn session_messages() -> Vec<MessageRecord> {
    vec![message("msg-1", MessageRole::User, "hello"), message("msg-2", MessageRole::Assistant, "hi there")]
}

#[test]
fn agent_projection_gathers_warnings_commands_and_refs() {
    let events = session_events();
    let messages = session_messages();
    let acknowledged = vec!["dirty_workspace".to_owned()];

    let p = agent_projection(
        "session-1",
        SessionThreadState::Active,
        placement(),
        runtime(),
        &messages,
        &events,
        NodePresence::Stale,
        false,
        &acknowledged,
    );

    assert_eq!(p.session_thread_id, "session-1");
    assert_eq!(p.current_turn.as_deref(), Some("turn-1"));
    assert_eq!(p.pending_approvals, vec!["approval-1".to_owned()]);
    let kinds: Vec<&str> = p.active_warnings.iter().map(|w| w.kind.as_str()).collect();
    assert_eq!(kinds, vec!["node_stale", "provider_unavailable"]);
    assert_eq!(p.active_warnings[1].label, "Provider `codex` is not advertised by this node");
    assert_eq!(p.active_warnings[1].severity, WarningSeverity::HardBlock);
    assert_eq!(
        p.available_commands,
        vec![
            "session.detach",
            "runtime.interrupt",
            "runtime.stop",
            "warning.acknowledge",
            "reference.openInInspector",
            "reference.copy",
        ]
    );
    assert_eq!(p.artifact_tree_summary, "Session-local index: 2 messages, 2 events, 1 pending approvals");
    assert!(matches!(&p.recent_message_refs[..], [
        CortexRef::Message { message_id: a },
        CortexRef::Message { message_id: b },
    ] if a == "msg-2" && b == "msg-1"));
    assert_eq!(p.available_block_types.len(), 11);
    assert_eq!(p.available_block_types[0], "core.user-message");
    assert_eq!(p.available_block_types[10], "core.unknown");
    assert!(matches!(&p.visible_refs[0], CortexRef::Session { session_thread_id } if session_thread_id == "session-1"));
    assert!(p.visible_refs.iter().any(|r| matches!(r, CortexRef::Approval { approval_id } if approval_id == "approval-1")));
    assert!(p.resume_context.contains("current_turn=turn-1"));
    assert!(p.resume_context.contains("pending_approvals=approval-1"));
}

#[test]
fn agent_projection_on_a_reachable_node_offers_turns() {
    let p = agent_projection(
        "session-1",
        SessionThreadState::Active,
        placement(),
        RuntimeSummary { state: RuntimeSessionState::Ready, ..runtime() },
        &vec![],
        &vec![],
        NodePresence::Reachable,
        true,
        &vec![],
    );

    let kinds: Vec<&str> = p.active_warnings.iter().map(|w| w.kind.as_str()).collect();
    assert_eq!(kinds, vec!["dirty_workspace"]);
    assert!(p.available_commands.contains(&"session.sendTurn".to_owned()));
    assert!(p.current_turn.is_none());
    assert!(p.recent_message_refs.is_empty());
    assert_eq!(p.artifact_tree_summary, "Session-local index: 0 messages, 0 events, 0 pending approvals");
}

#[test]
fn artifact_tree_lists_messages_then_events() {
    let events = session_events();
    let messages = session_messages();

    let tree = build_artifact_tree("session-1", "Fix the build", &messages, &events);

    assert_eq!(tree.session_thread_id, "session-1");
    assert_eq!(tree.root.label, "Fix the build");
    assert!(matches!(&tree.root.primary_ref, CortexRef::Session { session_thread_id } if session_thread_id == "session-1"));
    let labels: Vec<&str> = tree.root.children.iter().map(|n| n.label.as_str()).collect();
    assert_eq!(labels[0], "User message");
    assert_eq!(labels[1], "Assistant message");
    assert_eq!(labels[3], "Approval requested: Allow?");
    assert_eq!(tree.root.children.len(), 4);
    assert!(matches!(&tree.root.children[3].primary_ref, CortexRef::Approval { approval_id } if approval_id == "approval-1"));
    assert!(matches!(&tree.root.children[2].primary_ref, CortexRef::Event { event_id, seq: 1, .. } if event_id == "event-1"));
    assert_eq!(tree.root.children[2].source_refs.len(), 1);
    assert!(tree.root.children.iter().all(|n| n.children.is_empty()));
}

fn log_request() -> ClientLogRequest {
    ClientLogRequest {
        level: ClientLogLevel::Error,
        source: "  web.global_error ".to_owned(),
        message: "render failed".to_owned(),
        route: Some("/nodes".to_owned()),
        user_agent: Some("vitest".to_owned()),
        occurred_at: "2024-05-01T10:00:00Z".to_owned(),
    }
}

#[test]
fn client_log_record_keeps_trimmed_bounded_fields() {
    let record = client_log_record(
        "2024-05-01T10:00:01Z",
        &log_request(),
        Some("Mozilla"),
        r#"{"component":"NodesRoute"}"#,
    );

    assert_eq!(get_str(&record, "level"), Some("error"));
    assert_eq!(get_str(&record, "source"), Some("web.global_error"));
    assert_eq!(get_str(&record, "message"), Some("render failed"));
    assert_eq!(get_str(&record, "route"), Some("/nodes"));
    assert_eq!(get_str(&record, "user_agent"), Some("vitest"));
    assert_eq!(get_str(&record, "detail"), Some(r#"{"component":"NodesRoute"}"#));
    assert_eq!(get_str(&record, "accepted_at"), Some("2024-05-01T10:00:01Z"));

    let long = "x".repeat(2001);
    let request = ClientLogRequest { message: long, route: Some("   ".to_owned()), user_agent: None, ..log_request() };
    let record = client_log_record("t", &request, None, &"d".repeat(9000));
    assert_eq!(get_str(&record, "message").map(|m| m.chars().count()), Some(2003));
    assert!(get_str(&record, "message").is_some_and(|m| m.ends_with("...")));
    assert!(matches!(get(&record, "route"), Some(JsonValue::Null)));
    assert!(matches!(get(&record, "user_agent"), Some(JsonValue::Null)));
    assert_eq!(get_str(&record, "detail").map(|d| d.chars().count()), Some(8003));
}

#[test]
fn client_user_agent_falls_back_to_header() {
    assert_eq!(client_user_agent(&Some("  ".to_owned()), Some(" curl/8 ")).as_deref(), Some("curl/8"));
    assert_eq!(client_user_agent(&None, Some("")), None);
    assert_eq!(client_user_agent(&Some(" app ".to_owned()), Some("curl")).as_deref(), Some("app"));
}

fn target() -> SessionTarget {
    SessionTarget {
        session_thread_id: "session-1".to_owned(),
        runtime_session_id: "runtime-1".to_owned(),
        project_placement_id: "placement-1".to_owned(),
        node_id: "node-1".to_owned(),
    }
}

#[test]
fn send_turn_command_refuses_blank_content() {
    let err = send_turn_command(&target(), "  \n ", "corr-1").err().expect("blank content refused");
    let (status, body) = error_response(&err);
    assert_eq!(status, 400);
    assert_eq!(body.error_code, "validation.empty_turn");
    assert_eq!(body.message, "Turn content cannot be empty");
    assert!(!body.retryable);

    let (command, turn_id) = send_turn_command(&target(), "build it", "corr-1").expect("turn accepted");
    assert_eq!(command.kind, CommandKind::SendTurn);
    assert_eq!(command.target_node_id, "node-1");
    assert_eq!(command.correlation_id, "corr-1");
    assert!(matches!(&command.cause_refs[..], [CortexRef::Session { session_thread_id }] if session_thread_id == "session-1"));
    assert_eq!(get_str(&command.payload, "content"), Some("build it"));
    assert_eq!(get_str(&command.payload, "turn_id"), Some(turn_id.as_str()));
}

#[test]
fn new_sessions_default_provider_and_title() {
    assert_eq!(session_provider(&None), "fake");
    assert_eq!(session_provider(&Some("codex".to_owned())), "codex");
    assert_eq!(session_title(&None, "repo"), "Session for repo");
    assert_eq!(session_title(&Some("Fix CI".to_owned()), "repo"), "Fix CI");
    let command = start_runtime_command(&target(), "codex", "/srv/repo", "corr-2");
    assert_eq!(command.kind, CommandKind::StartRuntime);
    assert_eq!(get_str(&command.payload, "provider"), Some("codex"));
    assert_eq!(get_str(&command.payload, "workspace_path"), Some("/srv/repo"));
    assert!(command.cause_refs.is_empty());
}

#[test]
fn only_resume_carries_a_payload() {
    let stop = lifecycle_command_payload(CommandKind::StopRuntime, "codex", "/srv/repo", None);
    assert!(matches!(&stop, JsonValue::Object(e) if e.is_empty()));
    let resume_ref = JsonValue::Object(vec![("provider_session_id".to_owned(), JsonValue::Str("s-1".to_owned()))]);
    let resume = lifecycle_command_payload(CommandKind::ResumeRuntime, "codex", "/srv/repo", Some(resume_ref));
    assert_eq!(get_str(&resume, "provider"), Some("codex"));
    assert_eq!(get_str(&resume, "workspace_path"), Some("/srv/repo"));
    assert!(get(&resume, "provider_resume_ref").is_some());
    let command = lifecycle_command(&target(), CommandKind::ResumeRuntime, resume, "corr-3");
    assert_eq!(command.runtime_session_id.as_deref(), Some("runtime-1"));
    assert_eq!(command.project_placement_id.as_deref(), Some("placement-1"));
}

#[test]
fn refusals_map_to_statuses() {
    assert_eq!(error_response(&not_found("node.not_found", "Node not found")).0, 404);
    assert_eq!(error_response(&bad_request("x", "y")).0, 400);
    let (status, body) = internal_error_response(InternalFailure::Serialization);
    assert_eq!(status, 500);
    assert_eq!(body.error_code, "internal.serialization");
    assert!(!body.retryable);
    let (_, body) = internal_error_response(InternalFailure::Database);
    assert_eq!(body.message, "Core database operation failed");
    assert!(body.retryable);
}

#[test]
fn placement_requests_are_trimmed_and_required() {
    let err = placement_request("  ", "/srv").err().expect("name required");
    assert_eq!(error_response(&err).1.error_code, "validation.display_name_required");
    let err = placement_request("repo", " ").err().expect("path required");
    assert_eq!(error_response(&err).1.error_code, "validation.workspace_path_required");
    let (name, path) = placement_request(" repo ", " /srv/repo ").expect("accepted");
    assert_eq!((name.as_str(), path.as_str()), ("repo", "/srv/repo"));

    let command = placement_command(CommandKind::ValidateWorkspace, "node-1", "placement-1", &name, &path, "corr-4");
    assert_eq!(command.kind, CommandKind::ValidateWorkspace);
    assert_eq!(command.project_placement_id.as_deref(), Some("placement-1"));
    assert!(command.session_thread_id.is_none() && command.runtime_session_id.is_none());
    assert!(matches!(&command.source_refs[..], [CortexRef::Placement { placement_id }] if placement_id == "placement-1"));
    assert_eq!(get_str(&command.payload, "workspace_path"), Some("/srv/repo"));
}

#[test]
fn shared_workspace_warning_counts_other_sessions() {
    let stale = ResourceBadge {
        kind: "same_workspace_active".to_owned(),
        severity: WarningSeverity::Warning,
        label: "Workspace already has 5 active session(s)".to_owned(),
    };
    let dirty = ResourceBadge { kind: "dirty_workspace".to_owned(), severity: WarningSeverity::Warning, label: "Dirty".to_owned() };
    let badges = with_core_resource_badges(&vec![stale, dirty], 2);
    let labels: Vec<&str> = badges.iter().map(|b| b.label.as_str()).collect();
    assert_eq!(labels, vec!["Dirty", "Workspace already has 2 active session(s)"]);
    let none = with_core_resource_badges(&badges, 0);
    assert_eq!(none.len(), 1);
    assert_eq!(none[0].kind, "dirty_workspace");
}

#[test]
fn control_channel_opens_only_for_waiting_commands() {
    assert!(should_open_control_channel(false, 1));
    assert!(!should_open_control_channel(false, 0));
    assert!(!should_open_control_channel(true, 3));
}
