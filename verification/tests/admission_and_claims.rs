use uprava_core::admission::accept_node_event;
use uprava_core::auth::{claim_enrollment, hash_secret};
use uprava_core::commands::{send_turn_to_session, SessionTarget};
use uprava_core::node_state::{new_daemon_installation_id, NodeLocalState, TranscriptMessage};
use uprava_core::policy::{error_response, AppError, PlacementSummary, RuntimeSummary};
use uprava_core::protocol::{ActorRef, CortexRef, EventEnvelope, JsonValue, ScopeRef};
use uprava_core::states::{
    EnrollmentState, EventKind, NodePresence, PlacementState, RuntimeSessionState, SessionThreadState,
};

fn runtime_event(event_id: &str, seq: i64) -> EventEnvelope {
    EventEnvelope {
        event_id: event_id.to_owned(),
        command_id: None,
        correlation_id: None,
        actor_ref: ActorRef::System,
        scope_ref: ScopeRef::Runtime { runtime_session_id: "runtime-1".to_owned() },
        node_id: Some("node-1".to_owned()),
        runtime_session_id: Some("runtime-1".to_owned()),
        session_thread_id: Some("session-1".to_owned()),
        turn_id: None,
        seq,
        kind: EventKind::ProviderMessageCompleted,
        happened_at: 0,
        source_refs: vec![CortexRef::Runtime { runtime_session_id: "runtime-1".to_owned() }],
        evidence_refs: vec![],
        cause_refs: vec![],
        result_refs: vec![],
        payload: JsonValue::Object(vec![("content".to_owned(), JsonValue::Str("done".to_owned()))]),
    }
}

fn error_code(error: &AppError) -> String {
    let (_, body) = error_response(error);
    body.error_code
}

fn error_message(error: &AppError) -> String {
    let (_, body) = error_response(error);
    body.message
}

#[test]
fn node_event_sequence_gap_marks_runtime_stale_and_session_degraded() {
    let acceptance = accept_node_event(&runtime_event("event-5", 5), false, None, Some(2)).expect("accepted");
    assert!(acceptance.store);
    let marks = acceptance.stream_gap.expect("gap marked");
    assert_eq!(marks.expected_seq, 3);
    assert_eq!(marks.runtime_session_id.as_deref(), Some("runtime-1"));
    assert!(matches!(marks.runtime_state, RuntimeSessionState::Stale));
    assert_eq!(marks.degraded_reason, "event sequence gap: expected 3, received 5");
    assert_eq!(marks.session_thread_id.as_deref(), Some("session-1"));
    assert!(matches!(marks.session_state, SessionThreadState::Degraded));
}

#[test]
fn node_event_next_in_sequence_is_stored_without_marks() {
    let acceptance = accept_node_event(&runtime_event("event-3", 3), false, None, Some(2)).expect("accepted");
    assert!(acceptance.store);
    assert!(acceptance.stream_gap.is_none());
    let first = accept_node_event(&runtime_event("event-1", 1), false, None, None).expect("accepted");
    assert!(first.store);
    assert!(first.stream_gap.is_none());
}

#[test]
fn node_event_sequence_conflict_is_a_bad_request() {
    let error = accept_node_event(&runtime_event("event-b", 2), false, Some("event-a".to_owned()), Some(2))
        .err()
        .expect("conflict refused");
    assert!(matches!(error, AppError::BadRequest { .. }));
    assert_eq!(error_code(&error), "event.seq_conflict");
    assert_eq!(error_message(&error), "Event seq conflicts with event-a");
}

#[test]
fn redelivered_node_event_is_answered_without_storing() {
    let event = runtime_event("event-1", 1);
    let first = accept_node_event(&event, false, None, None).expect("accepted");
    assert!(first.store);
    let again = accept_node_event(&event, true, Some("event-1".to_owned()), Some(1)).expect("duplicate accepted");
    assert!(!again.store);
    assert!(again.stream_gap.is_none());
}

#[test]
fn wrong_pairing_code_is_refused_with_auth_error() {
    let stored = hash_secret("pair-right");
    let error = claim_enrollment(
        1_000,
        2_000,
        EnrollmentState::PendingUserApproval,
        &stored,
        "wrong-pairing-code",
        false,
        false,
        None,
    )
    .err()
    .expect("refused");
    assert!(matches!(error, AppError::Auth { .. }));
    assert_eq!(error_code(&error), "auth_dev.invalid_pairing_code");
    assert_eq!(error_message(&error), "Pairing code is invalid");
}

#[test]
fn expired_enrollment_claim_marks_enrollment_expired() {
    let stored = hash_secret("pair-right");
    let outcome = claim_enrollment(
        3_000,
        2_000,
        EnrollmentState::PendingUserApproval,
        &stored,
        "pair-right",
        false,
        false,
        None,
    )
    .ok()
    .expect("answered");
    assert!(!outcome.response.accepted);
    assert!(!outcome.response.pending);
    assert!(outcome.response.credential.is_none());
    assert!(matches!(outcome.new_status, Some(EnrollmentState::Expired)));
    assert!(outcome.issued_credential_hash.is_none());
}

#[test]
fn approved_enrollment_claim_registers_node_with_hashed_credential() {
    let stored = hash_secret("pair-right");
    let outcome = claim_enrollment(
        1_000,
        2_000,
        EnrollmentState::PendingUserApproval,
        &stored,
        "pair-right",
        false,
        true,
        None,
    )
    .ok()
    .expect("answered");
    assert!(outcome.response.accepted);
    assert!(!outcome.response.pending);
    assert!(matches!(outcome.new_status, Some(EnrollmentState::Registered)));
    let credential = outcome.response.credential.expect("credential issued");
    assert!(credential.starts_with("node-"));
    assert_eq!(outcome.issued_credential_hash.as_deref(), Some(hash_secret(&credential).as_str()));
    assert!(outcome.response.node_id.is_some());
}

#[test]
fn claim_waiting_for_approval_is_pending() {
    let stored = hash_secret("pair-right");
    let outcome = claim_enrollment(
        1_000,
        2_000,
        EnrollmentState::PendingUserApproval,
        &stored,
        "pair-right",
        false,
        false,
        None,
    )
    .ok()
    .expect("answered");
    assert!(!outcome.response.accepted);
    assert!(outcome.response.pending);
    assert!(outcome.response.credential.is_none());
    assert!(outcome.issued_credential_hash.is_none());
}

fn target() -> SessionTarget {
    SessionTarget {
        session_thread_id: "session-1".to_owned(),
        runtime_session_id: "runtime-1".to_owned(),
        project_placement_id: "placement-1".to_owned(),
        node_id: "node-1".to_owned(),
    }
}

fn runtime(state: RuntimeSessionState) -> RuntimeSummary {
    RuntimeSummary {
        runtime_session_id: "runtime-1".to_owned(),
        provider: "fake".to_owned(),
        state,
        resume_supported: false,
        degraded_reason: None,
        last_runtime_step_at: None,
    }
}

fn validated_placement() -> PlacementSummary {
    PlacementSummary {
        project_placement_id: "placement-1".to_owned(),
        project_id: None,
        node_id: "node-1".to_owned(),
        display_name: "repo".to_owned(),
        workspace_path: "/srv/repo".to_owned(),
        state: PlacementState::Validated,
        resource_badges: vec![],
        last_validated_at: None,
    }
}

#[test]
fn send_turn_checks_blank_content_before_session_state() {
    let error = send_turn_to_session(
        &target(),
        "   ",
        "corr-1",
        SessionThreadState::Detached,
        &runtime(RuntimeSessionState::Ready),
        &validated_placement(),
        NodePresence::Offline,
        true,
    )
    .err()
    .expect("refused");
    assert_eq!(error_code(&error), "validation.empty_turn");
}

#[test]
fn send_turn_refuses_detached_session() {
    let error = send_turn_to_session(
        &target(),
        "hello",
        "corr-1",
        SessionThreadState::Detached,
        &runtime(RuntimeSessionState::Ready),
        &validated_placement(),
        NodePresence::Reachable,
        true,
    )
    .err()
    .expect("refused");
    assert_eq!(error_code(&error), "session.detached");
}

#[test]
fn send_turn_refuses_offline_node() {
    let error = send_turn_to_session(
        &target(),
        "hello",
        "corr-1",
        SessionThreadState::Active,
        &runtime(RuntimeSessionState::Ready),
        &validated_placement(),
        NodePresence::Offline,
        true,
    )
    .err()
    .expect("refused");
    assert_eq!(error_code(&error), "node.offline");
}

#[test]
fn send_turn_to_ready_session_builds_command() {
    let (command, turn_id) = send_turn_to_session(
        &target(),
        "hello",
        "corr-1",
        SessionThreadState::Active,
        &runtime(RuntimeSessionState::Ready),
        &validated_placement(),
        NodePresence::Reachable,
        true,
    )
    .ok()
    .expect("accepted");
    assert!(!turn_id.is_empty());
    assert_eq!(command.correlation_id, "corr-1");
    assert_eq!(command.runtime_session_id.as_deref(), Some("runtime-1"));
}

#[test]
fn node_local_state_debug_redacts_secret_fields() {
    let mut local_state = NodeLocalState::default_state();
    local_state.credential = Some("development-secret".to_owned());
    local_state.pairing_code = Some("pair-secret".to_owned());
    local_state.runtime_transcripts.insert(
        "runtime-1".to_owned(),
        vec![TranscriptMessage { role: "user".to_owned(), content: "secret prompt content".to_owned() }],
    );

    let formatted = local_state.redacted_summary();

    assert!(!formatted.contains("development-secret"));
    assert!(!formatted.contains("pair-secret"));
    assert!(!formatted.contains("secret prompt content"));
    assert!(formatted.contains("runtime_transcript_counts"));
    assert!(formatted.contains("[redacted]"));
    assert!(formatted.contains("runtime-1: 1"));
}

#[test]
fn installation_id_is_prefixed_hyphenated_uuid() {
    let id = new_daemon_installation_id();
    assert_eq!(id.len(), 43);
    assert!(id.starts_with("daemon-"));
    let uuid = &id["daemon-".len()..];
    let hyphens: Vec<usize> = uuid.char_indices().filter(|(_, c)| *c == '-').map(|(i, _)| i).collect();
    assert_eq!(hyphens, vec![8, 13, 18, 23]);
    assert_ne!(new_daemon_installation_id(), id);
}
