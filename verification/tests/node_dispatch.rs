use uprava_core::command_flow::{
    begin_command_dispatch, complete_command_dispatch, CommandDispatchOutcome, DispatchStart,
    MAX_EVENT_OUTBOX_EVENTS,
};
use uprava_core::control::{
    command_ack_frame, command_result_frame, control_frame_protocol_error, event_batch_frame,
    node_control_step, server_frame_action, ControlFrame, NodeFrameStep, ServerFrameAction,
};
use uprava_core::dispatch::{
    command_payload_str, insert_if_changed, provider_for_command, remember_runtime_metadata,
    workspace_path_for_command, FakeProviderAdapter,
};
use uprava_core::node_config::{NodeConfig, RuntimeManager};
use uprava_core::node_state::{
    active_runtime_count, active_runtime_ids, node_diagnostics, remove_acked_events,
    NodeLocalState, ProviderResumeRef, TranscriptMessage,
};
use uprava_core::protocol::{ActorRef, CommandEnvelope, EventEnvelope, JsonValue, ScopeRef};
use uprava_core::policy::{idle_expiry_payload, runtime_idle_expired};
use uprava_core::retention::enforce_event_outbox_retention;
use uprava_core::states::{CommandKind, CommandState, EventKind, RuntimeSessionState};
use uprava_core::codex::{
    codex_launch_failure, codex_timeout_failure, CodexExecOutcome, CodexInvocation, CodexRun,
};
use uprava_core::node_config::{node_capabilities, NodeEnv};
use uprava_core::workspace::{
    placement_snapshot_events, placement_workspace_request,
    resource_warnings, validate_command_workspace, validate_workspace, workspace_display_name,
    workspace_path_allowed, WorkspaceProbe,
};

fn obj(entries: Vec<(&str, JsonValue)>) -> JsonValue {
    JsonValue::Object(entries.into_iter().map(|(k, v)| (k.to_owned(), v)).collect())
}

fn s(v: &str) -> JsonValue {
    JsonValue::Str(v.to_owned())
}

fn get<'a>(value: &'a JsonValue, key: &str) -> Option<&'a JsonValue> {
    match value {
        JsonValue::Object(entries) => entries.iter().find(|(k, _)| k == key).map(|(_, v)| v),
        _ => None,
    }
}

fn get_str<'a>(value: &'a JsonValue, key: &str) -> Option<&'a str> {
    match get(value, key) {
        Some(JsonValue::Str(s)) => Some(s.as_str()),
        _ => None,
    }
}

fn config_fixture() -> NodeConfig {
    NodeConfig {
        core_url: "http://127.0.0.1:8080/".to_owned(),
        display_name: "Test Node".to_owned(),
        heartbeat_interval_seconds: 5,
        state_path: "/tmp/uprava-node-test.json".to_owned(),
        workspace_paths: vec![],
        codex_binary: "codex".to_owned(),
        codex_timeout_seconds: 5,
    }
}

fn command_fixture_with_content(command_id: &str, kind: CommandKind, content: &str) -> CommandEnvelope {
    CommandEnvelope {
        command_id: command_id.to_owned(),
        kind,
        target_node_id: "node-1".to_owned(),
        actor_ref: ActorRef::LocalUser { actor_id: None },
        session_thread_id: Some("session-1".to_owned()),
        runtime_session_id: Some("runtime-1".to_owned()),
        project_placement_id: None,
        source_refs: vec![],
        cause_refs: vec![],
        issued_at: 0,
        correlation_id: "correlation-1".to_owned(),
        payload: obj(vec![("turn_id", s("turn-1")), ("content", s(content))]),
    }
}

fn command_fixture(command_id: &str, kind: CommandKind) -> CommandEnvelope {
    command_fixture_with_content(command_id, kind, "hello")
}

fn placement_command_fixture(
    command_id: &str,
    placement_id: &str,
    display_name: &str,
    workspace_path: &str,
) -> CommandEnvelope {
    CommandEnvelope {
        command_id: command_id.to_owned(),
        kind: CommandKind::ValidateWorkspace,
        target_node_id: "node-1".to_owned(),
        actor_ref: ActorRef::LocalUser { actor_id: None },
        session_thread_id: None,
        runtime_session_id: None,
        project_placement_id: Some(placement_id.to_owned()),
        source_refs: vec![],
        cause_refs: vec![],
        issued_at: 0,
        correlation_id: "correlation-1".to_owned(),
        payload: obj(vec![("display_name", s(display_name)), ("workspace_path", s(workspace_path))]),
    }
}

fn fresh_state() -> NodeLocalState {
    NodeLocalState::with_installation_id("daemon-test".to_owned())
}

/// What probing a plain directory outside git finds.
fn plain_directory() -> WorkspaceProbe {
    WorkspaceProbe { exists: true, is_dir: true, read_only: false, is_git: false, git_status: None }
}

/// Handles a command the way the node daemon does, with `probe` standing for what the
/// filesystem reports of a placement's workspace and `codex_outcome` for how a codex
/// process ended.
fn dispatch_with(
    config: &NodeConfig,
    state: &mut NodeLocalState,
    command: &CommandEnvelope,
    probe: &WorkspaceProbe,
    codex_outcome: Option<CodexExecOutcome>,
) -> (CommandDispatchOutcome, Option<CodexRun>) {
    let mut ran: Option<CodexRun> = None;
    let outcome = match begin_command_dispatch(state, command) {
        DispatchStart::Replay(outcome) => outcome,
        DispatchStart::Placement => {
            let kind = if command.kind == CommandKind::ValidateWorkspace {
                EventKind::WorkspaceValidated
            } else {
                EventKind::ResourceSnapshotUpdated
            };
            let events = match placement_workspace_request(command) {
                Some((name, path)) => {
                    let snapshot = validate_command_workspace(
                        &config.workspace_paths,
                        &name,
                        &path,
                        probe,
                        "2024-01-01T00:00:00Z".to_owned(),
                    );
                    placement_snapshot_events(command, &mut state.placement_seqs, kind, &snapshot)
                }
                None => vec![],
            };
            complete_command_dispatch(state, command, events)
        }
        DispatchStart::Runtime { provider_key, workspace_path } => {
            let events = match RuntimeManager::for_provider(&provider_key, config) {
                RuntimeManager::Fake(fake) => fake.events_for_command(command, &mut state.runtime_seqs),
                RuntimeManager::Unsupported(u) => u.events_for_command(command, &mut state.runtime_seqs),
                RuntimeManager::Codex(codex) => {
                    let step = codex.events_for_command(
                        command,
                        &mut state.runtime_seqs,
                        workspace_path.as_deref(),
                        &mut state.runtime_transcripts,
                        &mut state.runtime_provider_resume_refs,
                    );
                    let mut events = step.events;
                    if let Some(run) = step.run {
                        let outcome = codex_outcome.expect("the codex process ran");
                        let rid = command.runtime_session_id.clone().expect("runtime command");
                        events.extend(codex.turn_finish(
                            command,
                            &mut state.runtime_seqs,
                            &rid,
                            &run,
                            &outcome,
                            &mut state.runtime_transcripts,
                            &mut state.runtime_provider_resume_refs,
                        ));
                        ran = Some(run);
                    }
                    events
                }
            };
            complete_command_dispatch(state, command, events)
        }
    };
    (outcome, ran)
}

fn dispatch(config: &NodeConfig, state: &mut NodeLocalState, command: &CommandEnvelope) -> CommandDispatchOutcome {
    dispatch_with(config, state, command, &plain_directory(), None).0
}

/// Runs a codex turn whose process ended as `outcome`.
fn dispatch_codex(
    state: &mut NodeLocalState,
    command: &CommandEnvelope,
    outcome: CodexExecOutcome,
) -> (CommandDispatchOutcome, CodexRun) {
    let (result, run) = dispatch_with(&config_fixture(), state, command, &plain_directory(), Some(outcome));
    (result, run.expect("the turn ran"))
}

fn exited(success: bool, status_code: i32, stdout_lines: &[&str], stderr: &str, last_message: &str) -> CodexExecOutcome {
    CodexExecOutcome::Exited {
        success,
        status_code: Some(status_code),
        stdout: stdout_lines.iter().map(|l| format!("{l}\n")).collect(),
        stderr: stderr.to_owned(),
        stdout_values: stdout_lines
            .iter()
            .filter_map(|l| serde_json::from_str::<serde_json::Value>(l).ok())
            .map(|v| to_json(&v))
            .collect(),
        last_message: last_message.to_owned(),
    }
}

fn to_json(v: &serde_json::Value) -> JsonValue {
    match v {
        serde_json::Value::Null => JsonValue::Null,
        serde_json::Value::Bool(b) => JsonValue::Bool(*b),
        serde_json::Value::Number(n) => JsonValue::Number(n.to_string()),
        serde_json::Value::String(s) => JsonValue::Str(s.clone()),
        serde_json::Value::Array(items) => JsonValue::Array(items.iter().map(to_json).collect()),
        serde_json::Value::Object(map) => {
            JsonValue::Object(map.iter().map(|(k, v)| (k.clone(), to_json(v))).collect())
        }
    }
}

fn codex_runtime_state() -> NodeLocalState {
    let mut local_state = fresh_state();
    local_state.runtime_providers.insert("runtime-1".to_owned(), "codex".to_owned());
    local_state.runtime_workspace_paths.insert("runtime-1".to_owned(), "/tmp/cortex-codex-workspace".to_owned());
    local_state
}

fn transcript_message(role: &str, content: &str) -> TranscriptMessage {
    TranscriptMessage { role: role.to_owned(), content: content.to_owned() }
}

fn event_kinds(events: &[EventEnvelope]) -> Vec<EventKind> {
    events.iter().map(|e| e.kind).collect()
}

fn event_ids(events: &[EventEnvelope]) -> Vec<String> {
    events.iter().map(|e| e.event_id.clone()).collect()
}

#[test]
fn node_diagnostics_reports_installation_and_queue_counts() {
    let mut local_state = fresh_state();
    local_state.command_status.insert("command-1".to_owned(), CommandState::Completed);

    let diagnostics = node_diagnostics(&local_state);

    assert_eq!(diagnostics, "daemon_installation_id=daemon-test; outbox_events=0; cached_commands=1");
}

#[test]
fn active_runtime_ids_are_sorted_and_include_only_live_states() {
    let mut local_state = fresh_state();
    local_state.runtime_states.insert("runtime-b".to_owned(), RuntimeSessionState::Blocked);
    local_state.runtime_states.insert("runtime-stopped".to_owned(), RuntimeSessionState::Stopped);
    local_state.runtime_states.insert("runtime-a".to_owned(), RuntimeSessionState::Running);
    local_state.runtime_states.insert("runtime-error".to_owned(), RuntimeSessionState::Error);

    let ids = active_runtime_ids(&local_state);

    assert_eq!(ids, vec!["runtime-a".to_owned(), "runtime-b".to_owned()]);
    assert_eq!(active_runtime_count(&local_state), 2);
}

#[test]
fn prepare_command_dispatch_persists_new_events_and_runtime_sequence() {
    let config = config_fixture();
    let command = command_fixture("command-1", CommandKind::SendTurn);
    let mut local_state = fresh_state();

    let outcome = dispatch(&config, &mut local_state, &command);

    assert_eq!(outcome.status, CommandState::Completed);
    assert!(outcome.state_changed);
    assert_eq!(
        event_kinds(&outcome.events_to_send),
        vec![
            EventKind::RuntimeRunning,
            EventKind::TurnStarted,
            EventKind::ProviderOutputDelta,
            EventKind::ProviderMessageCompleted,
            EventKind::TurnCompleted,
            EventKind::RuntimeReady,
        ]
    );
    assert_eq!(local_state.event_outbox.len(), 6);
    assert_eq!(local_state.runtime_seqs.get("runtime-1").copied(), Some(6));
    assert_eq!(local_state.runtime_states.get("runtime-1").copied(), Some(RuntimeSessionState::Ready));
    assert_eq!(active_runtime_count(&local_state), 1);
    assert_eq!(local_state.command_status.get("command-1").copied(), Some(CommandState::Completed));
    assert!(outcome
        .events_to_send
        .iter()
        .all(|event| event.correlation_id.as_deref() == Some("correlation-1")));
    assert_eq!(
        get_str(&outcome.events_to_send[2].payload, "delta"),
        Some("Fake provider accepted: hello")
    );
    let seqs: Vec<i64> = outcome.events_to_send.iter().map(|e| e.seq).collect();
    assert_eq!(seqs, vec![1, 2, 3, 4, 5, 6]);
}

#[test]
fn prepare_command_dispatch_replays_outbox_for_duplicate_command() {
    let config = config_fixture();
    let command = command_fixture("command-1", CommandKind::SendTurn);
    let mut local_state = fresh_state();
    let first = dispatch(&config, &mut local_state, &command);
    let first_event_ids = event_ids(&first.events_to_send);

    let second = dispatch(&config, &mut local_state, &command);

    assert_eq!(second.status, CommandState::Completed);
    assert!(!second.state_changed);
    assert_eq!(event_ids(&second.events_to_send), first_event_ids);
    assert_eq!(local_state.runtime_seqs.get("runtime-1").copied(), Some(6));
    assert_eq!(local_state.event_outbox.len(), 6);
}

#[test]
fn remove_acked_events_removes_only_accepted_event_ids() {
    let config = config_fixture();
    let command = command_fixture("command-1", CommandKind::SendTurn);
    let mut local_state = fresh_state();
    let outcome = dispatch(&config, &mut local_state, &command);
    let accepted_event_id = outcome.events_to_send[1].event_id.clone();

    let removed = remove_acked_events(&mut local_state.event_outbox, &vec![accepted_event_id.clone()]);

    assert_eq!(removed, 1);
    assert_eq!(local_state.event_outbox.len(), 5);
    assert!(local_state.event_outbox.iter().all(|e| e.event_id != accepted_event_id));
}

#[test]
fn event_outbox_retention_emits_runtime_error_when_runtime_events_are_dropped() {
    let config = config_fixture();
    let command = command_fixture("command-retention", CommandKind::SendTurn);
    let mut local_state = fresh_state();
    local_state.node_id = Some("node-1".to_owned());
    let _ = dispatch(&config, &mut local_state, &command);

    let notices = enforce_event_outbox_retention(&mut local_state, 5);

    assert_eq!(notices.len(), 1);
    assert_eq!(notices[0].kind, EventKind::RuntimeError);
    assert_eq!(notices[0].seq, 7);
    assert_eq!(get_str(&notices[0].payload, "code"), Some("node.event_outbox_retention_exceeded"));
    assert_eq!(notices[0].node_id.as_deref(), Some("node-1"));
    assert_eq!(local_state.event_outbox.len(), 5);
    assert_eq!(local_state.runtime_seqs.get("runtime-1").copied(), Some(7));
    assert_eq!(local_state.runtime_states.get("runtime-1").copied(), Some(RuntimeSessionState::Error));
}

#[test]
fn retention_without_overflow_changes_nothing() {
    let config = config_fixture();
    let command = command_fixture("command-1", CommandKind::SendTurn);
    let mut local_state = fresh_state();
    let _ = dispatch(&config, &mut local_state, &command);

    assert!(enforce_event_outbox_retention(&mut local_state, 0).is_empty());
    assert!(enforce_event_outbox_retention(&mut local_state, 6).is_empty());
    assert_eq!(local_state.event_outbox.len(), 6);
    assert_eq!(MAX_EVENT_OUTBOX_EVENTS, 1024);
}

#[test]
fn retention_notices_each_runtime_once_in_sorted_order() {
    let config = config_fixture();
    let mut local_state = fresh_state();
    let mut second = command_fixture("command-b", CommandKind::StopRuntime);
    second.runtime_session_id = Some("runtime-b".to_owned());
    let mut first = command_fixture("command-a", CommandKind::StopRuntime);
    first.runtime_session_id = Some("runtime-a".to_owned());
    let _ = dispatch(&config, &mut local_state, &second);
    let _ = dispatch(&config, &mut local_state, &first);
    let _ = dispatch(&config, &mut local_state, &command_fixture("command-c", CommandKind::StopRuntime));

    let notices = enforce_event_outbox_retention(&mut local_state, 1);

    let runtimes: Vec<&str> = notices.iter().map(|n| n.runtime_session_id.as_deref().unwrap()).collect();
    assert_eq!(runtimes, vec!["runtime-a", "runtime-b"]);
    assert_eq!(local_state.event_outbox.len(), 1);
    assert_eq!(local_state.event_outbox[0].runtime_session_id.as_deref(), Some("runtime-b"));
}

#[test]
fn fake_provider_approval_turn_blocks_runtime() {
    let config = config_fixture();
    let command = command_fixture_with_content("command-approval", CommandKind::SendTurn, "/approval Allow test command");
    let mut local_state = fresh_state();

    let outcome = dispatch(&config, &mut local_state, &command);

    assert_eq!(
        event_kinds(&outcome.events_to_send),
        vec![EventKind::RuntimeRunning, EventKind::TurnStarted, EventKind::ApprovalRequested, EventKind::RuntimeBlocked]
    );
    assert_eq!(get_str(&outcome.events_to_send[2].payload, "prompt"), Some("Allow test command"));
    assert_eq!(local_state.runtime_seqs.get("runtime-1").copied(), Some(4));
    assert_eq!(local_state.runtime_states.get("runtime-1").copied(), Some(RuntimeSessionState::Blocked));
}

#[test]
fn fake_provider_approval_without_prompt_uses_default() {
    let config = config_fixture();
    let command = command_fixture_with_content("command-approval", CommandKind::SendTurn, "  /approval  ");
    let mut local_state = fresh_state();

    let outcome = dispatch(&config, &mut local_state, &command);

    assert_eq!(get_str(&outcome.events_to_send[2].payload, "prompt"), Some("Fake provider approval requested"));
    assert!(get_str(&outcome.events_to_send[2].payload, "approval_id").is_some());
}

#[test]
fn fake_provider_error_turn_marks_runtime_error() {
    let config = config_fixture();
    let command = command_fixture_with_content("command-error", CommandKind::SendTurn, "/error boom");
    let mut local_state = fresh_state();

    let outcome = dispatch(&config, &mut local_state, &command);

    assert_eq!(outcome.status, CommandState::Failed);
    assert_eq!(
        event_kinds(&outcome.events_to_send),
        vec![EventKind::RuntimeRunning, EventKind::TurnStarted, EventKind::RuntimeError]
    );
    assert_eq!(get_str(&outcome.events_to_send[2].payload, "message"), Some("boom"));
    assert_eq!(local_state.runtime_seqs.get("runtime-1").copied(), Some(3));
    assert_eq!(local_state.command_status.get("command-error").copied(), Some(CommandState::Failed));
}

#[test]
fn failed_command_dispatch_replays_failed_status_and_outbox_for_duplicate_command() {
    let config = config_fixture();
    let command = command_fixture_with_content("command-error", CommandKind::SendTurn, "/error boom");
    let mut local_state = fresh_state();
    let first = dispatch(&config, &mut local_state, &command);
    let first_event_ids = event_ids(&first.events_to_send);

    let second = dispatch(&config, &mut local_state, &command);

    assert_eq!(second.status, CommandState::Failed);
    assert!(!second.state_changed);
    assert_eq!(event_ids(&second.events_to_send), first_event_ids);
    assert_eq!(local_state.runtime_seqs.get("runtime-1").copied(), Some(3));
}

#[test]
fn fake_provider_resolve_approval_returns_runtime_to_ready() {
    let config = config_fixture();
    let mut command = command_fixture("command-resolve", CommandKind::ResolveApproval);
    command.payload = obj(vec![
        ("approval_id", s("approval-1")),
        ("approved", JsonValue::Bool(true)),
        ("message", s("approved")),
    ]);
    let mut local_state = fresh_state();

    let outcome = dispatch(&config, &mut local_state, &command);

    assert_eq!(event_kinds(&outcome.events_to_send), vec![EventKind::ApprovalResolved, EventKind::RuntimeReady]);
    assert_eq!(get_str(&outcome.events_to_send[0].payload, "approval_id"), Some("approval-1"));
    assert_eq!(local_state.runtime_seqs.get("runtime-1").copied(), Some(2));
}

#[test]
fn resolve_approval_defaults_when_payload_is_empty() {
    let config = config_fixture();
    let mut command = command_fixture("command-resolve", CommandKind::ResolveApproval);
    command.payload = obj(vec![]);
    let mut local_state = fresh_state();

    let outcome = dispatch(&config, &mut local_state, &command);

    let payload = &outcome.events_to_send[0].payload;
    assert_eq!(get_str(payload, "approval_id"), Some("unknown"));
    assert_eq!(get_str(payload, "message"), Some("Approval denied"));
    assert!(matches!(get(payload, "approved"), Some(JsonValue::Bool(false))));
}

#[test]
fn stop_runtime_marks_runtime_inactive() {
    let config = config_fixture();
    let command = command_fixture("command-stop", CommandKind::StopRuntime);
    let mut local_state = fresh_state();
    local_state.runtime_states.insert("runtime-1".to_owned(), RuntimeSessionState::Ready);

    let outcome = dispatch(&config, &mut local_state, &command);

    assert_eq!(event_kinds(&outcome.events_to_send), vec![EventKind::RuntimeStopped]);
    assert_eq!(local_state.runtime_states.get("runtime-1").copied(), Some(RuntimeSessionState::Stopped));
    assert_eq!(active_runtime_count(&local_state), 0);
    assert!(active_runtime_ids(&local_state).is_empty());
}

#[test]
fn unsupported_provider_reports_runtime_error() {
    let config = config_fixture();
    let mut command = command_fixture("command-start", CommandKind::StartRuntime);
    command.payload = obj(vec![("provider", s("  mystery  "))]);
    let mut local_state = fresh_state();

    let outcome = dispatch(&config, &mut local_state, &command);

    assert_eq!(outcome.status, CommandState::Failed);
    assert_eq!(event_kinds(&outcome.events_to_send), vec![EventKind::RuntimeError]);
    assert_eq!(get_str(&outcome.events_to_send[0].payload, "code"), Some("provider.unsupported"));
    assert_eq!(
        get_str(&outcome.events_to_send[0].payload, "message"),
        Some("Provider `mystery` is not supported by this node")
    );
    assert_eq!(local_state.runtime_providers.get("runtime-1").map(String::as_str), Some("mystery"));
}

#[test]
fn command_without_runtime_emits_nothing_and_fails() {
    let config = config_fixture();
    let mut command = command_fixture("command-start", CommandKind::StartRuntime);
    command.runtime_session_id = None;
    let mut local_state = fresh_state();

    let outcome = dispatch(&config, &mut local_state, &command);

    assert_eq!(outcome.status, CommandState::Failed);
    assert!(outcome.events_to_send.is_empty());
}

#[test]
fn validate_workspace_command_hard_blocks_outside_allowed_roots() {
    let mut config = config_fixture();
    config.workspace_paths = vec!["/tmp/allowed-root".to_owned()];
    let command = placement_command_fixture("command-validate-blocked", "placement-2", "workspace", "/tmp/outside-root");
    let mut local_state = fresh_state();

    let outcome = dispatch(&config, &mut local_state, &command);

    let payload = &outcome.events_to_send[0].payload;
    assert_eq!(get_str(payload, "state"), Some("error"));
    let first_badge = match get(payload, "resource_badges") {
        Some(JsonValue::Array(items)) => items.first().and_then(|b| get_str(b, "kind")).map(str::to_owned),
        _ => None,
    };
    assert_eq!(first_badge.as_deref(), Some("workspace_outside_allowed_roots"));
    assert!(matches!(&outcome.events_to_send[0].scope_ref, ScopeRef::Placement { .. }));
    assert_eq!(local_state.placement_seqs.get("placement-2").copied(), Some(1));
    assert_eq!(outcome.events_to_send[0].correlation_id.as_deref(), Some("correlation-1"));
}

#[test]
fn workspace_paths_match_by_whole_components() {
    let roots = vec!["/tmp/work".to_owned()];
    assert!(workspace_path_allowed(&roots, "/tmp/work"));
    assert!(workspace_path_allowed(&roots, "/tmp/work/project"));
    assert!(workspace_path_allowed(&roots, "/tmp//work/./project/"));
    assert!(!workspace_path_allowed(&roots, "/tmp/workspace"));
    assert!(!workspace_path_allowed(&roots, "tmp/work"));
    assert!(workspace_path_allowed(&vec![], "anything"));
}

#[test]
fn runtime_metadata_is_remembered_from_start_and_resume() {
    let mut state = fresh_state();
    let mut start = command_fixture("command-start", CommandKind::StartRuntime);
    start.payload = obj(vec![("workspace_path", s(" /tmp/ws "))]);

    assert!(remember_runtime_metadata(&mut state, &start));
    assert!(!remember_runtime_metadata(&mut state, &start));
    assert_eq!(state.runtime_providers.get("runtime-1").map(String::as_str), Some("fake"));
    assert_eq!(state.runtime_workspace_paths.get("runtime-1").map(String::as_str), Some("/tmp/ws"));

    let mut resume = command_fixture("command-resume", CommandKind::ResumeRuntime);
    resume.payload = obj(vec![(
        "provider_resume_ref",
        obj(vec![("provider_session_id", s(" session-9 "))]),
    )]);
    assert!(remember_runtime_metadata(&mut state, &resume));
    let stored = state.runtime_provider_resume_refs.get("runtime-1").unwrap();
    assert_eq!(stored.provider_session_id.as_deref(), Some("session-9"));
    assert!(stored.resume_cursor.is_none());

    let send = command_fixture("command-send", CommandKind::SendTurn);
    assert_eq!(provider_for_command(&state, &send), "fake");
    assert_eq!(workspace_path_for_command(&state, &send).as_deref(), Some("/tmp/ws"));
    assert_eq!(command_payload_str(&send, "content").as_deref(), Some("hello"));
    assert_eq!(command_payload_str(&send, "missing"), None);
}

#[test]
fn insert_if_changed_reports_only_changes() {
    let mut map = uprava_core::strmap::StrMap::new();
    assert!(insert_if_changed(&mut map, "k".to_owned(), "v".to_owned()));
    assert!(!insert_if_changed(&mut map, "k".to_owned(), "v".to_owned()));
    assert!(insert_if_changed(&mut map, "k".to_owned(), "w".to_owned()));
    assert_eq!(map.get("k").map(String::as_str), Some("w"));
    assert_eq!(map.len(), 1);
}

#[test]
fn fake_adapter_names_itself() {
    assert_eq!(FakeProviderAdapter.provider_key(), "fake");
}

#[test]
fn validate_workspace_command_emits_placement_scoped_event() {
    let config = config_fixture();
    let command = placement_command_fixture("command-validate", "placement-1", "workspace", "/tmp");
    let mut local_state = fresh_state();

    let outcome = dispatch(&config, &mut local_state, &command);

    assert_eq!(outcome.status, CommandState::Completed);
    assert_eq!(event_kinds(&outcome.events_to_send), vec![EventKind::WorkspaceValidated]);
    assert!(matches!(&outcome.events_to_send[0].scope_ref, ScopeRef::Placement { .. }));
    assert_eq!(get_str(&outcome.events_to_send[0].payload, "state"), Some("validated"));
    assert_eq!(local_state.placement_seqs.get("placement-1").copied(), Some(1));
    assert_eq!(outcome.events_to_send[0].correlation_id.as_deref(), Some("correlation-1"));
}

#[test]
fn refresh_resource_snapshot_command_emits_placement_scoped_event() {
    let config = config_fixture();
    let mut command = placement_command_fixture("command-refresh", "placement-refresh", "workspace", "/tmp");
    command.kind = CommandKind::RefreshResourceSnapshot;
    let mut local_state = fresh_state();

    let outcome = dispatch(&config, &mut local_state, &command);

    assert_eq!(outcome.status, CommandState::Completed);
    assert_eq!(event_kinds(&outcome.events_to_send), vec![EventKind::ResourceSnapshotUpdated]);
    assert!(matches!(&outcome.events_to_send[0].scope_ref, ScopeRef::Placement { .. }));
    assert_eq!(local_state.placement_seqs.get("placement-refresh").copied(), Some(1));
}

#[test]
fn resource_warnings_ignore_non_git_workspace() {
    let badges = resource_warnings(false, None);

    assert!(badges.is_empty());
}

#[test]
fn git_workspace_badges_follow_status_or_its_absence() {
    let badges = resource_warnings(true, Some("## main\n"));
    let kinds: Vec<&str> = badges.iter().map(|b| b.kind.as_str()).collect();
    assert_eq!(kinds, vec!["git_workspace", "git_branch"]);
    let badges = resource_warnings(true, None);
    let kinds: Vec<&str> = badges.iter().map(|b| b.kind.as_str()).collect();
    assert_eq!(kinds, vec!["git_workspace", "git_snapshot_unavailable"]);
}

#[test]
fn workspace_probe_decides_state_and_badges() {
    let missing = WorkspaceProbe { exists: false, is_dir: false, read_only: false, is_git: false, git_status: None };
    let snapshot = validate_workspace("/srv/project/", &missing, "t".to_owned());
    assert_eq!(snapshot.display_name, "project");
    assert_eq!(snapshot.state, uprava_core::states::PlacementState::Missing);
    assert_eq!(snapshot.resource_badges[0].kind, "missing_workspace");

    let file = WorkspaceProbe { exists: true, is_dir: false, read_only: false, is_git: false, git_status: None };
    let snapshot = validate_workspace("/srv/file.txt", &file, "t".to_owned());
    assert_eq!(snapshot.state, uprava_core::states::PlacementState::Missing);
    assert_eq!(snapshot.resource_badges[0].kind, "workspace_not_directory");

    let read_only = WorkspaceProbe { exists: true, is_dir: true, read_only: true, is_git: true, git_status: None };
    let snapshot = validate_workspace("/srv/ro", &read_only, "t".to_owned());
    assert_eq!(snapshot.state, uprava_core::states::PlacementState::ReadOnly);
    assert_eq!(snapshot.resource_badges.len(), 1);
    assert_eq!(snapshot.resource_badges[0].kind, "read_only_workspace");

    let dirty = WorkspaceProbe {
        exists: true,
        is_dir: true,
        read_only: false,
        is_git: true,
        git_status: Some("## main\n M a.rs\n".to_owned()),
    };
    let snapshot = validate_workspace("/srv/repo", &dirty, "t".to_owned());
    assert_eq!(snapshot.state, uprava_core::states::PlacementState::Validated);
    let kinds: Vec<&str> = snapshot.resource_badges.iter().map(|b| b.kind.as_str()).collect();
    assert_eq!(kinds, vec!["git_workspace", "git_branch", "dirty_workspace"]);
    assert_eq!(snapshot.last_validated_at, "t");

    let named = validate_command_workspace(&vec![], "Repo", "/srv/repo", &dirty, "t".to_owned());
    assert_eq!(named.display_name, "Repo");
}

#[test]
fn display_name_is_the_last_named_component() {
    assert_eq!(workspace_display_name("/srv/project"), "project");
    assert_eq!(workspace_display_name("relative/dir/./"), "dir");
    assert_eq!(workspace_display_name("/"), "workspace");
    assert_eq!(workspace_display_name("/srv/.."), "workspace");
    assert_eq!(workspace_display_name(""), "workspace");
}

#[test]
fn capabilities_report_codex_unavailable_when_binary_is_missing() {
    let capability = node_capabilities("/tmp/missing-codex", 120, false)
        .into_iter()
        .find(|capability| capability.key == "provider.codex")
        .expect("codex capability exists");

    assert!(matches!(get(&capability.value, "available"), Some(JsonValue::Bool(false))));
    assert_eq!(get_str(&capability.value, "unavailable_reason"), Some("binary_not_found"));
    assert!(matches!(get(&capability.value, "timeout_seconds"), Some(JsonValue::Number(n)) if n == "120"));
}

#[test]
fn capabilities_list_fake_codex_and_workspace_validation() {
    let caps = node_capabilities("codex", 7, true);
    let keys: Vec<&str> = caps.iter().map(|c| c.key.as_str()).collect();
    assert_eq!(keys, vec!["provider.fake", "provider.codex", "workspace.validation"]);
    assert!(matches!(get(&caps[1].value, "unavailable_reason"), Some(JsonValue::Null)));
    assert_eq!(get_str(&caps[2].value, "mode"), Some("explicit_path"));
}

fn node_env() -> NodeEnv {
    NodeEnv {
        core_url: None,
        display_name: None,
        heartbeat_seconds: None,
        state_path: None,
        workspaces: None,
        codex_binary: None,
        codex_timeout_seconds: None,
    }
}

#[test]
fn node_config_from_env_parses_overrides_and_workspace_list() {
    let mut env = node_env();
    env.core_url = Some("http://127.0.0.1:19090".to_owned());
    env.display_name = Some("Desktop Node".to_owned());
    env.heartbeat_seconds = Some("2".to_owned());
    env.state_path = Some("/tmp/cortex-node-state.json".to_owned());
    env.workspaces = Some("/tmp/a, ,/tmp/b".to_owned());
    env.codex_binary = Some("/usr/local/bin/codex".to_owned());
    env.codex_timeout_seconds = Some("7".to_owned());

    let config = NodeConfig::from_env(&env, "/home/node/.cortex/node.json").expect("overridden node config parses");

    assert_eq!(config.core_url, "http://127.0.0.1:19090/");
    assert_eq!(config.display_name, "Desktop Node");
    assert_eq!(config.heartbeat_interval_seconds, 2);
    assert_eq!(config.state_path, "/tmp/cortex-node-state.json");
    assert_eq!(config.workspace_paths, vec!["/tmp/a".to_owned(), "/tmp/b".to_owned()]);
    assert_eq!(config.codex_binary, "/usr/local/bin/codex");
    assert_eq!(config.codex_timeout_seconds, 7);
}

#[test]
fn node_config_from_env_rejects_invalid_duration_values() {
    let mut env = node_env();
    env.heartbeat_seconds = Some("soon".to_owned());

    let error = NodeConfig::from_env(&env, "/home/node/.cortex/node.json").expect_err("invalid heartbeat should fail");

    assert!(error.contains("CORTEX_NODE_HEARTBEAT_SECONDS must be an unsigned integer"));
}

#[test]
fn codex_start_runtime_records_provider_and_workspace_metadata() {
    let config = config_fixture();
    let mut command = command_fixture("command-codex-start", CommandKind::StartRuntime);
    command.payload = obj(vec![("provider", s("codex")), ("workspace_path", s("/tmp"))]);
    let mut local_state = fresh_state();

    let outcome = dispatch(&config, &mut local_state, &command);

    assert_eq!(event_kinds(&outcome.events_to_send), vec![EventKind::RuntimeStarting, EventKind::RuntimeReady]);
    assert_eq!(local_state.runtime_providers.get("runtime-1").map(String::as_str), Some("codex"));
    assert_eq!(local_state.runtime_workspace_paths.get("runtime-1").map(String::as_str), Some("/tmp"));
    assert_eq!(local_state.runtime_transcripts.get("runtime-1").map(Vec::len), Some(0));
}

#[test]
fn codex_send_turn_maps_missing_binary_to_missing_binary_error() {
    let config = config_fixture();
    let command = command_fixture("command-codex-send", CommandKind::SendTurn);
    let mut local_state = fresh_state();
    local_state.runtime_providers.insert("runtime-1".to_owned(), "codex".to_owned());
    local_state.runtime_workspace_paths.insert("runtime-1".to_owned(), "/tmp".to_owned());
    let launch = codex_launch_failure(false, "/tmp/missing-codex", true, "No such file or directory (os error 2)");

    let (outcome, _) = dispatch_with(
        &config,
        &mut local_state,
        &command,
        &plain_directory(),
        Some(CodexExecOutcome::StartFailed(launch)),
    );

    assert_eq!(outcome.status, CommandState::Failed);
    assert_eq!(
        event_kinds(&outcome.events_to_send),
        vec![EventKind::RuntimeRunning, EventKind::TurnStarted, EventKind::RuntimeError]
    );
    assert_eq!(get_str(&outcome.events_to_send[2].payload, "code"), Some("provider.missing_binary"));
    assert_eq!(local_state.command_status.get("command-codex-send").copied(), Some(CommandState::Failed));
}

#[test]
fn codex_send_turn_maps_missing_workspace_to_workspace_missing_error() {
    let config = config_fixture();
    let command = command_fixture("command-codex-workspace-missing", CommandKind::SendTurn);
    let mut local_state = fresh_state();
    local_state.runtime_providers.insert("runtime-1".to_owned(), "codex".to_owned());

    let outcome = dispatch(&config, &mut local_state, &command);

    assert_eq!(outcome.status, CommandState::Failed);
    assert_eq!(
        event_kinds(&outcome.events_to_send),
        vec![EventKind::RuntimeRunning, EventKind::TurnStarted, EventKind::RuntimeError]
    );
    assert_eq!(get_str(&outcome.events_to_send[2].payload, "code"), Some("provider.workspace_missing"));
    assert_eq!(local_state.runtime_states.get("runtime-1").copied(), Some(RuntimeSessionState::Error));
}

#[test]
fn codex_send_turn_executes_binary_and_emits_completed_assistant_message() {
    let command = command_fixture_with_content("command-codex-success", CommandKind::SendTurn, "build status");
    let mut local_state = codex_runtime_state();
    let process = exited(
        true,
        0,
        &[r#"{"type":"response.completed","session_id":"codex-session-1","resume_cursor":"cursor-1"}"#],
        "",
        "Codex fake accepted\n",
    );

    let (outcome, _) = dispatch_codex(&mut local_state, &command, process);

    assert_eq!(outcome.status, CommandState::Completed);
    assert_eq!(
        event_kinds(&outcome.events_to_send),
        vec![
            EventKind::RuntimeRunning,
            EventKind::TurnStarted,
            EventKind::ProviderOutputDelta,
            EventKind::ProviderMessageCompleted,
            EventKind::TurnCompleted,
            EventKind::RuntimeReady,
        ]
    );
    assert_eq!(get_str(&outcome.events_to_send[3].payload, "content"), Some("Codex fake accepted"));
    assert_eq!(local_state.runtime_states.get("runtime-1").copied(), Some(RuntimeSessionState::Ready));
    assert_eq!(local_state.command_status.get("command-codex-success").copied(), Some(CommandState::Completed));
    assert_eq!(local_state.runtime_transcripts.get("runtime-1").map(Vec::len), Some(2));
    assert_eq!(
        local_state.runtime_provider_resume_refs.get("runtime-1").and_then(|r| r.provider_session_id.as_deref()),
        Some("codex-session-1")
    );
    let resume_ref = get(&outcome.events_to_send[5].payload, "provider_resume_ref").expect("resume ref");
    assert_eq!(get_str(resume_ref, "provider_session_id"), Some("codex-session-1"));
    assert_eq!(get_str(resume_ref, "resume_cursor"), Some("cursor-1"));
}

#[test]
fn codex_send_turn_includes_prior_transcript_context() {
    let command = command_fixture_with_content("command-codex-transcript", CommandKind::SendTurn, "second question");
    let mut local_state = codex_runtime_state();
    local_state.runtime_transcripts.insert(
        "runtime-1".to_owned(),
        vec![transcript_message("user", "first question"), transcript_message("assistant", "first answer")],
    );
    let process = exited(true, 0, &[r#"{"type":"response.completed"}"#], "", "Codex contextual answer\n");

    let (outcome, run) = dispatch_codex(&mut local_state, &command, process);

    let captured_prompt = match &run.invocation {
        CodexInvocation::Exec { prompt } => prompt.clone(),
        CodexInvocation::Resume { .. } => panic!("a new session runs codex exec"),
    };
    assert_eq!(outcome.status, CommandState::Completed);
    assert!(captured_prompt.contains("Continue this Cortex session"));
    assert!(captured_prompt.contains("user: first question"));
    assert!(captured_prompt.contains("assistant: first answer"));
    assert!(captured_prompt.contains("Latest user message:\nsecond question"));
    let transcript = local_state.runtime_transcripts.get("runtime-1").expect("runtime transcript exists");
    assert_eq!(transcript.len(), 4);
    assert_eq!(transcript[2].content, "second question");
    assert_eq!(transcript[3].content, "Codex contextual answer");
}

#[test]
fn codex_send_turn_uses_provider_native_resume_when_session_id_exists() {
    let command = command_fixture_with_content("command-codex-native-resume", CommandKind::SendTurn, "third question");
    let mut local_state = codex_runtime_state();
    local_state.runtime_provider_resume_refs.insert(
        "runtime-1".to_owned(),
        ProviderResumeRef {
            provider_session_id: Some("codex-session-1".to_owned()),
            resume_cursor: Some("cursor-1".to_owned()),
        },
    );
    let process = exited(
        true,
        0,
        &[r#"{"type":"response.completed","session_id":"codex-session-1","resume_cursor":"cursor-2"}"#],
        "",
        "Codex resume accepted\n",
    );

    let (outcome, run) = dispatch_codex(&mut local_state, &command, process);

    assert_eq!(outcome.status, CommandState::Completed);
    match &run.invocation {
        CodexInvocation::Resume { provider_session_id, content } => {
            assert_eq!(provider_session_id, "codex-session-1");
            assert_eq!(content, "third question");
            assert!(!content.contains("Latest user message:"));
        }
        CodexInvocation::Exec { .. } => panic!("a known session resumes natively"),
    }
    assert_eq!(
        local_state.runtime_provider_resume_refs.get("runtime-1").and_then(|r| r.resume_cursor.as_deref()),
        Some("cursor-2")
    );
    assert_eq!(get_str(&outcome.events_to_send[3].payload, "content"), Some("Codex resume accepted"));
}

#[test]
fn codex_send_turn_maps_stdout_approval_request_to_blocked_runtime() {
    let command = command_fixture_with_content("command-codex-approval", CommandKind::SendTurn, "change files");
    let mut local_state = codex_runtime_state();
    let process = exited(
        true,
        0,
        &[r#"{"type":"approval.requested","approval_id":"approval-codex-1","prompt":"Allow file edit?"}"#],
        "",
        "",
    );

    let (outcome, _) = dispatch_codex(&mut local_state, &command, process);

    assert_eq!(outcome.status, CommandState::Completed);
    assert_eq!(
        event_kinds(&outcome.events_to_send),
        vec![EventKind::RuntimeRunning, EventKind::TurnStarted, EventKind::ApprovalRequested, EventKind::RuntimeBlocked]
    );
    assert_eq!(get_str(&outcome.events_to_send[2].payload, "approval_id"), Some("approval-codex-1"));
    assert_eq!(get_str(&outcome.events_to_send[2].payload, "prompt"), Some("Allow file edit?"));
    assert_eq!(get_str(&outcome.events_to_send[2].payload, "source"), Some("codex_json_stdout"));
    assert_eq!(local_state.runtime_states.get("runtime-1").copied(), Some(RuntimeSessionState::Blocked));
    assert!(local_state.runtime_transcripts.get("runtime-1").map_or(true, Vec::is_empty));
}

#[test]
fn codex_resume_runtime_reports_local_transcript_source() {
    let config = config_fixture();
    let command = command_fixture("command-codex-resume", CommandKind::ResumeRuntime);
    let mut local_state = fresh_state();
    local_state.runtime_providers.insert("runtime-1".to_owned(), "codex".to_owned());
    local_state.runtime_transcripts.insert(
        "runtime-1".to_owned(),
        vec![transcript_message("user", "first question"), transcript_message("assistant", "first answer")],
    );

    let outcome = dispatch(&config, &mut local_state, &command);

    assert_eq!(outcome.status, CommandState::Completed);
    assert_eq!(event_kinds(&outcome.events_to_send), vec![EventKind::RuntimeResuming, EventKind::RuntimeReady]);
    assert_eq!(get_str(&outcome.events_to_send[1].payload, "resume_source"), Some("node_local_transcript"));
    assert!(matches!(
        get(&outcome.events_to_send[1].payload, "transcript_messages"),
        Some(JsonValue::Number(n)) if n == "2"
    ));
}

#[test]
fn codex_send_turn_maps_nonzero_exit_to_exec_failed_error() {
    let command = command_fixture_with_content("command-codex-failed", CommandKind::SendTurn, "status");
    let mut local_state = codex_runtime_state();
    let process = exited(false, 42, &[], "provider crashed\n", "");

    let (outcome, _) = dispatch_codex(&mut local_state, &command, process);

    assert_eq!(outcome.status, CommandState::Failed);
    assert_eq!(
        event_kinds(&outcome.events_to_send),
        vec![EventKind::RuntimeRunning, EventKind::TurnStarted, EventKind::RuntimeError]
    );
    assert_eq!(get_str(&outcome.events_to_send[2].payload, "code"), Some("provider.exec_failed"));
    assert!(get_str(&outcome.events_to_send[2].payload, "message")
        .is_some_and(|message| message.contains("status 42") && message.contains("provider crashed")));
    assert_eq!(local_state.runtime_states.get("runtime-1").copied(), Some(RuntimeSessionState::Error));
}

#[test]
fn codex_send_turn_maps_empty_final_message_to_empty_output_error() {
    let command = command_fixture_with_content("command-codex-empty", CommandKind::SendTurn, "status");
    let mut local_state = codex_runtime_state();

    let (outcome, _) = dispatch_codex(&mut local_state, &command, exited(true, 0, &[], "", ""));

    assert_eq!(outcome.status, CommandState::Failed);
    assert_eq!(
        event_kinds(&outcome.events_to_send),
        vec![EventKind::RuntimeRunning, EventKind::TurnStarted, EventKind::RuntimeError]
    );
    assert_eq!(get_str(&outcome.events_to_send[2].payload, "code"), Some("provider.empty_output"));
    assert_eq!(local_state.runtime_states.get("runtime-1").copied(), Some(RuntimeSessionState::Error));
}

#[test]
fn codex_send_turn_maps_slow_process_to_start_timeout_error() {
    let command = command_fixture_with_content("command-codex-timeout", CommandKind::SendTurn, "status");
    let mut local_state = codex_runtime_state();
    let timeout = CodexExecOutcome::StartFailed(codex_timeout_failure(false, 0));

    let (outcome, _) = dispatch_codex(&mut local_state, &command, timeout);

    assert_eq!(outcome.status, CommandState::Failed);
    assert_eq!(
        event_kinds(&outcome.events_to_send),
        vec![EventKind::RuntimeRunning, EventKind::TurnStarted, EventKind::RuntimeError]
    );
    assert_eq!(get_str(&outcome.events_to_send[2].payload, "code"), Some("provider.start_timeout"));
    assert_eq!(local_state.runtime_states.get("runtime-1").copied(), Some(RuntimeSessionState::Error));
}

#[test]
fn idle_runtimes_expire_after_the_configured_seconds() {
    assert!(runtime_idle_expired(RuntimeSessionState::Ready, 0, 60_000, 60));
    assert!(!runtime_idle_expired(RuntimeSessionState::Ready, 1, 60_000, 60));
    assert!(!runtime_idle_expired(RuntimeSessionState::Stopped, 0, 60_000, 60));
    assert!(!runtime_idle_expired(RuntimeSessionState::Running, 0, 60_000, 0));
    assert!(!runtime_idle_expired(RuntimeSessionState::Stale, i64::MIN, i64::MAX, i64::MAX));
    assert!(runtime_idle_expired(RuntimeSessionState::Stale, i64::MIN, i64::MAX, 1));
    let payload = idle_expiry_payload(86400);
    assert_eq!(get_str(&payload, "code"), Some("runtime.idle_expired"));
    assert_eq!(get_str(&payload, "message"), Some("Runtime expired after 86400 seconds without runtime activity"));
    assert!(matches!(get(&payload, "expiry_seconds"), Some(JsonValue::Number(n)) if n == "86400"));
}

#[test]
fn compatible_control_frame_has_no_protocol_error() {
    let frame = ControlFrame::HelloAck { frame_id: "hello-ack-1".to_owned(), protocol_version: "v1".to_owned(), sent_at: 0 };

    assert!(control_frame_protocol_error(&frame).is_none());
}

#[test]
fn incompatible_control_frame_builds_safe_protocol_error() {
    let frame = ControlFrame::CommandDispatch {
        frame_id: "dispatch-1".to_owned(),
        protocol_version: "v0".to_owned(),
        sent_at: 0,
        command: command_fixture("bad-protocol-command", CommandKind::SendTurn),
    };

    let error_frame = control_frame_protocol_error(&frame).expect("incompatible frame rejects");

    let ControlFrame::ControlError { protocol_version, error, .. } = error_frame else {
        panic!("expected control error frame");
    };
    assert_eq!(protocol_version, "v1");
    assert_eq!(error.error_code, "control.protocol_incompatible");
    assert!(!error.retryable);
    assert_eq!(get_str(&error.details, "received_protocol_version"), Some("v0"));
}

#[test]
fn node_answers_pings_and_drops_acknowledged_events() {
    let mut local_state = fresh_state();
    let config = config_fixture();
    let command = command_fixture("command-1", CommandKind::StartRuntime);
    let outcome = dispatch(&config, &mut local_state, &command);
    assert_eq!(local_state.event_outbox.len(), 2);

    let ping = ControlFrame::Ping { frame_id: "ping-7".to_owned(), protocol_version: "v1".to_owned(), sent_at: 0 };
    assert!(matches!(
        node_control_step(&mut local_state, ping),
        NodeFrameStep::Reply(ControlFrame::Pong { frame_id, .. }) if frame_id == "ping-7"
    ));

    let ack = ControlFrame::EventBatchAck {
        frame_id: "ack-1".to_owned(),
        protocol_version: "v1".to_owned(),
        sent_at: 0,
        accepted_event_ids: vec![outcome.events_to_send[0].event_id.clone(), "unknown".to_owned()],
    };
    assert!(matches!(node_control_step(&mut local_state, ack), NodeFrameStep::OutboxAcked { removed: 1 }));
    assert_eq!(local_state.event_outbox.len(), 1);
    assert_eq!(local_state.event_outbox[0].event_id, outcome.events_to_send[1].event_id);

    let stale = ControlFrame::EventBatchAck {
        frame_id: "ack-2".to_owned(),
        protocol_version: "v0".to_owned(),
        sent_at: 0,
        accepted_event_ids: vec![outcome.events_to_send[1].event_id.clone()],
    };
    assert!(matches!(node_control_step(&mut local_state, stale), NodeFrameStep::Reply(ControlFrame::ControlError { .. })));
    assert_eq!(local_state.event_outbox.len(), 1);

    let dispatch_frame = ControlFrame::CommandDispatch {
        frame_id: "dispatch-2".to_owned(),
        protocol_version: "v1".to_owned(),
        sent_at: 0,
        command: command_fixture("command-2", CommandKind::SendTurn),
    };
    assert!(matches!(node_control_step(&mut local_state, dispatch_frame), NodeFrameStep::Dispatch(c) if c.command_id == "command-2"));
    let hello_ack = ControlFrame::HelloAck { frame_id: "h".to_owned(), protocol_version: "v1".to_owned(), sent_at: 0 };
    assert!(matches!(node_control_step(&mut local_state, hello_ack), NodeFrameStep::Ignore));
}

#[test]
fn node_reply_frames_carry_command_and_events() {
    assert!(matches!(
        command_ack_frame("command-1"),
        ControlFrame::CommandAck { command_id, status: CommandState::Acknowledged, .. } if command_id == "command-1"
    ));
    assert!(matches!(
        command_result_frame("command-1", CommandState::Failed),
        ControlFrame::CommandResult { command_id, status: CommandState::Failed, .. } if command_id == "command-1"
    ));
    assert!(event_batch_frame(vec![]).is_none());
}

#[test]
fn control_plane_checks_hello_and_routes_frames() {
    let hello = |node: &str, version: &str| ControlFrame::Hello {
        frame_id: "hello-1".to_owned(),
        protocol_version: version.to_owned(),
        sent_at: 0,
        node_id: node.to_owned(),
        daemon_version: "0.1.0".to_owned(),
        active_runtime_ids: vec![],
    };
    assert!(matches!(server_frame_action("node-1", &hello("node-1", "v1")), ServerFrameAction::AcknowledgeHello));
    assert!(matches!(
        server_frame_action("node-1", &hello("node-2", "v0")),
        ServerFrameAction::Reject { error_code, auth: true, .. } if error_code == "control.node_mismatch"
    ));
    assert!(matches!(
        server_frame_action("node-1", &hello("node-1", "v0")),
        ServerFrameAction::Reject { error_code, auth: false, .. } if error_code == "control.protocol_incompatible"
    ));
    let ack = ControlFrame::CommandAck {
        frame_id: "a".to_owned(),
        protocol_version: "v1".to_owned(),
        sent_at: 0,
        command_id: "command-9".to_owned(),
        status: CommandState::Acknowledged,
    };
    assert!(matches!(
        server_frame_action("node-1", &ack),
        ServerFrameAction::UpdateCommand { command_id, status: CommandState::Acknowledged } if command_id == "command-9"
    ));
    let old_batch = ControlFrame::EventBatch { frame_id: "b".to_owned(), protocol_version: "v0".to_owned(), sent_at: 0, events: vec![] };
    assert!(matches!(server_frame_action("node-1", &old_batch), ServerFrameAction::Reject { auth: false, .. }));
    let pong = ControlFrame::Pong { frame_id: "p".to_owned(), protocol_version: "v1".to_owned(), sent_at: 0 };
    assert!(matches!(server_frame_action("node-1", &pong), ServerFrameAction::Ignore));
}

#[test]
fn incompatible_control_hello_sends_non_retryable_error_frame() {
    let hello = ControlFrame::Hello {
        frame_id: "hello-1".to_owned(),
        protocol_version: "v0".to_owned(),
        sent_at: 0,
        node_id: "node-1".to_owned(),
        daemon_version: "0.1.0".to_owned(),
        active_runtime_ids: vec![],
    };
    match server_frame_action("node-1", &hello) {
        ServerFrameAction::Reject { error_code, auth, reply: ControlFrame::ControlError { protocol_version, sent_at, error, .. }, .. } => {
            assert_eq!(error_code, "control.protocol_incompatible");
            assert!(!auth);
            assert_eq!(protocol_version, "v1");
            assert!(sent_at > 0);
            assert_eq!(error.error_code, "control.protocol_incompatible");
            assert_eq!(error.message, "Control protocol version is incompatible");
            assert!(!error.retryable);
        }
        _ => panic!("expected a rejection with an error frame"),
    }
    let foreign = ControlFrame::Hello {
        frame_id: "hello-2".to_owned(),
        protocol_version: "v1".to_owned(),
        sent_at: 0,
        node_id: "node-2".to_owned(),
        daemon_version: "0.1.0".to_owned(),
        active_runtime_ids: vec![],
    };
    match server_frame_action("node-1", &foreign) {
        ServerFrameAction::Reject { auth, reply: ControlFrame::ControlError { error, .. }, .. } => {
            assert!(auth);
            assert_eq!(error.error_code, "control.node_mismatch");
            assert!(!error.retryable);
        }
        _ => panic!("expected a rejection with an error frame"),
    }
}
