use uprava_core::codex::{codex_arguments, CodexRun};
use uprava_core::codex::{
    codex_approval_request_from_json, codex_approval_requests_from_values, codex_exec_prompt,
    codex_failure_message, codex_json_is_approval_request, codex_launch_failure,
    codex_resume_ref_from_json, codex_runtime_ready_payload, codex_timeout_failure,
    first_json_string_for_keys, record_codex_transcript_turn, top_level_json_string,
    trim_codex_transcript, CodexExecOutcome, CodexInvocation, CodexProviderAdapter,
    ProviderStartFailure, MAX_CODEX_TRANSCRIPT_CHARS, MAX_CODEX_TRANSCRIPT_MESSAGES,
};
use uprava_core::node_state::{NodeLocalState, TranscriptMessage};
use uprava_core::protocol::{ActorRef, CommandEnvelope, EventEnvelope, JsonValue};
use uprava_core::states::{CommandKind, EventKind};
use uprava_core::strmap::StrMap;

fn to_json(v: &serde_json::Value) -> JsonValue {
    match v {
        serde_json::Value::Null => JsonValue::Null,
        serde_json::Value::Bool(b) => JsonValue::Bool(*b),
        serde_json::Value::Number(n) => JsonValue::Number(n.to_string()),
        serde_json::Value::String(s) => JsonValue::Str(s.clone()),
        serde_json::Value::Array(items) => JsonValue::Array(items.iter().map(to_json).collect()),
        serde_json::Value::Object(map) => {
            JsonValue::Object(map.iter().map(|(k, v)| (k.clone(), to_json(v))).collect())
        }
    }
}

fn parse(line: &str) -> JsonValue {
    to_json(&serde_json::from_str::<serde_json::Value>(line).expect("test JSON parses"))
}

fn get<'a>(value: &'a JsonValue, key: &str) -> Option<&'a JsonValue> {
    match value {
        JsonValue::Object(entries) => entries.iter().find(|(k, _)| k == key).map(|(_, v)| v),
        _ => None,
    }
}

fn get_str<'a>(value: &'a JsonValue, key: &str) -> Option<&'a str> {
    match get(value, key) {
        Some(JsonValue::Str(s)) => Some(s.as_str()),
        _ => None,
    }
}

fn message(role: &str, content: &str) -> TranscriptMessage {
    TranscriptMessage { role: role.to_owned(), content: content.to_owned() }
}

fn send_turn(content: &str) -> CommandEnvelope {
    CommandEnvelope {
        command_id: "command-codex".to_owned(),
        kind: CommandKind::SendTurn,
        target_node_id: "node-1".to_owned(),
        actor_ref: ActorRef::LocalUser { actor_id: None },
        session_thread_id: Some("session-1".to_owned()),
        runtime_session_id: Some("runtime-1".to_owned()),
        project_placement_id: None,
        source_refs: vec![],
        cause_refs: vec![],
        issued_at: 0,
        correlation_id: "correlation-1".to_owned(),
        payload: parse(&format!(r#"{{"turn_id":"turn-1","content":"{content}"}}"#)),
    }
}

fn kinds(events: &[EventEnvelope]) -> Vec<EventKind> {
    events.iter().map(|e| e.kind).collect()
}

#[test]
fn codex_approval_request_parser_accepts_nested_user_input_request() {
    let value = parse(
        r#"{"type":"provider.user_input.requested","payload":{"request_id":"input-1","question":"Need confirmation"}}"#,
    );
    let request = codex_approval_request_from_json(&value, "fallback").expect("approval request parses");

    assert_eq!(request.approval_id, "input-1");
    assert_eq!(request.prompt, "Need confirmation");
    assert_eq!(request.provider_event_type.as_deref(), Some("provider.user_input.requested"));
}

#[test]
fn approval_detection_without_event_name_needs_id_and_question() {
    assert!(codex_json_is_approval_request(&parse(r#"{"approval_id":"a","message":"ok?"}"#)));
    assert!(!codex_json_is_approval_request(&parse(r#"{"approval_id":"a"}"#)));
    assert!(!codex_json_is_approval_request(&parse(r#"{"type":"response.completed","approval_id":"a","prompt":"p"}"#)));
    assert!(codex_json_is_approval_request(&parse(r#"{"kind":"APPROVAL_REQUESTED"}"#)));
}

#[test]
fn approval_request_without_id_or_prompt_uses_fallbacks() {
    let request = codex_approval_request_from_json(&parse(r#"{"event":"approval.request","id":"  "}"#), "fresh-id")
        .expect("request");
    assert_eq!(request.approval_id, "fresh-id");
    assert_eq!(request.prompt, "Codex requested approval");
    let requests = codex_approval_requests_from_values(&vec![
        parse(r#"{"type":"response.completed"}"#),
        parse(r#"{"type":"approval.requested","approval_id":"approval-codex-1","prompt":"Allow file edit?"}"#),
    ]);
    assert_eq!(requests.len(), 1);
    assert_eq!(requests[0].approval_id, "approval-codex-1");
}

#[test]
fn json_search_prefers_own_members_then_nested_values() {
    let value = parse(r#"{"a":{"id":"inner"},"b":"x","id":"outer"}"#);
    let keys = vec!["id"];
    assert_eq!(first_json_string_for_keys(&value, &keys).as_deref(), Some("outer"));
    let nested = parse(r#"[{"z":1},{"deep":{"id":"found"}}]"#);
    assert_eq!(first_json_string_for_keys(&nested, &keys).as_deref(), Some("found"));
    assert_eq!(top_level_json_string(&nested, &keys), None);
    assert_eq!(top_level_json_string(&parse(r#"{"kind":"k","type":7}"#), &vec!["type", "kind"]).as_deref(), Some("k"));
}

#[test]
fn resume_ref_is_read_from_session_and_cursor_keys() {
    let r = codex_resume_ref_from_json(&parse(
        r#"{"type":"response.completed","session_id":" codex-session-1 ","resume_cursor":"cursor-1"}"#,
    ))
    .expect("resume ref");
    assert_eq!(get_str(&r, "provider_session_id"), Some("codex-session-1"));
    assert_eq!(get_str(&r, "resume_cursor"), Some("cursor-1"));
    assert!(codex_resume_ref_from_json(&parse(r#"{"session_id":"  "}"#)).is_none());
}

#[test]
fn ready_payload_carries_resume_ref_when_present() {
    let plain = codex_runtime_ready_payload("codex", None);
    assert_eq!(get_str(&plain, "provider"), Some("codex"));
    assert_eq!(get_str(&plain, "mode"), Some("exec"));
    assert!(get(&plain, "provider_resume_ref").is_none());
    let with = codex_runtime_ready_payload("codex", Some(parse(r#"{"resume_cursor":"c"}"#)));
    assert!(get(&with, "provider_resume_ref").is_some());
}

#[test]
fn failure_message_prefers_stderr_then_stdout() {
    assert_eq!(
        codex_failure_message(Some(42), "out", " provider crashed \n"),
        "Codex exec failed with status 42: provider crashed"
    );
    assert_eq!(codex_failure_message(None, " partial ", ""), "Codex exec failed with status terminated_by_signal: partial");
    assert_eq!(codex_failure_message(Some(-1), "", "  "), "Codex exec failed with status -1");
}

#[test]
fn start_failures_map_to_codes() {
    let missing = codex_launch_failure(false, "/no/codex", true, "No such file or directory");
    assert_eq!(missing.code, "provider.missing_binary");
    assert_eq!(missing.message, "Codex exec could not start using `/no/codex`: No such file or directory");
    let failed = codex_launch_failure(true, "codex", false, "denied");
    assert_eq!(failed.code, "provider.start_failed");
    assert_eq!(failed.message, "Codex exec resume could not start using `codex`: denied");
    let slow = codex_timeout_failure(false, 5);
    assert_eq!(slow.code, "provider.start_timeout");
    assert_eq!(slow.message, "Codex exec timed out after 5 seconds");
    let plain = ProviderStartFailure::new("x", "y".to_owned());
    assert_eq!((plain.code.as_str(), plain.message.as_str()), ("x", "y"));
}

#[test]
fn prompt_without_transcript_is_the_content() {
    assert_eq!(codex_exec_prompt("hello", &vec![]), "hello");
}

#[test]
fn prompt_includes_prior_transcript_context() {
    let transcript = vec![message("user", "first question"), message("assistant", "first answer")];
    let prompt = codex_exec_prompt("second question", &transcript);
    assert_eq!(
        prompt,
        "Continue this Cortex session. Use the transcript only as prior context, then answer the latest user message.\n\nTranscript:\nuser: first question\nassistant: first answer\n\nLatest user message:\nsecond question"
    );
}

#[test]
fn prompt_keeps_newest_messages_within_bounds() {
    let transcript: Vec<TranscriptMessage> = (0..30).map(|i| message("user", &format!("m{i}"))).collect();
    let prompt = codex_exec_prompt("q", &transcript);
    assert!(prompt.contains("user: m29\n"));
    assert!(prompt.contains("user: m10\n"));
    assert!(!prompt.contains("user: m9\n"));
    let big = vec![message("user", &"a".repeat(11_000)), message("assistant", &"b".repeat(2_000))];
    let prompt = codex_exec_prompt("q", &big);
    assert!(prompt.contains(&"b".repeat(2_000)));
    assert!(!prompt.contains(&"a".repeat(11_000)));
}

#[test]
fn transcript_trimming_bounds_messages_and_characters() {
    let mut t: Vec<TranscriptMessage> = (0..25).map(|i| message("user", &format!("{i}"))).collect();
    trim_codex_transcript(&mut t);
    assert_eq!(t.len(), MAX_CODEX_TRANSCRIPT_MESSAGES);
    assert_eq!(t[0].content, "5");
    let mut big = vec![
        message("user", &"a".repeat(MAX_CODEX_TRANSCRIPT_CHARS)),
        message("assistant", "b"),
        message("user", "c"),
    ];
    trim_codex_transcript(&mut big);
    assert_eq!(big.len(), 2);
    assert_eq!(big[0].content, "b");
    let mut two = vec![message("user", &"a".repeat(20_000)), message("assistant", "b")];
    trim_codex_transcript(&mut two);
    assert_eq!(two.len(), 2);
}

#[test]
fn recording_a_turn_appends_user_and_assistant() {
    let mut transcripts: StrMap<Vec<TranscriptMessage>> = StrMap::new();
    record_codex_transcript_turn(&mut transcripts, "runtime-1", "question", "answer");
    let t = transcripts.get("runtime-1").expect("transcript");
    assert_eq!(t.len(), 2);
    assert_eq!((t[0].role.as_str(), t[0].content.as_str()), ("user", "question"));
    assert_eq!((t[1].role.as_str(), t[1].content.as_str()), ("assistant", "answer"));
}

#[test]
fn codex_turn_without_workspace_reports_workspace_missing() {
    let adapter = CodexProviderAdapter::new("codex", 5);
    let mut state = NodeLocalState::with_installation_id("daemon-test".to_owned());
    let step = adapter.events_for_command(
        &send_turn("hi"),
        &mut state.runtime_seqs,
        Some("   "),
        &mut state.runtime_transcripts,
        &mut state.runtime_provider_resume_refs,
    );
    assert!(step.run.is_none());
    assert_eq!(kinds(&step.events), vec![EventKind::RuntimeRunning, EventKind::TurnStarted, EventKind::RuntimeError]);
    assert_eq!(get_str(&step.events[2].payload, "code"), Some("provider.workspace_missing"));
}

#[test]
fn codex_turn_runs_and_records_answer_and_resume_ref() {
    let adapter = CodexProviderAdapter::new("codex", 5);
    let mut state = NodeLocalState::with_installation_id("daemon-test".to_owned());
    let command = send_turn("build status");
    let step = adapter.events_for_command(
        &command,
        &mut state.runtime_seqs,
        Some("/tmp/ws"),
        &mut state.runtime_transcripts,
        &mut state.runtime_provider_resume_refs,
    );
    let run = step.run.expect("turn runs");
    assert!(matches!(&run.invocation, CodexInvocation::Exec { prompt } if prompt == "build status"));
    let outcome = CodexExecOutcome::Exited {
        success: true,
        status_code: Some(0),
        stdout: String::new(),
        stderr: String::new(),
        stdout_values: vec![parse(r#"{"type":"response.completed","session_id":"codex-session-1","resume_cursor":"cursor-1"}"#)],
        last_message: "Codex fake accepted\n".to_owned(),
    };
    let events = adapter.turn_finish(
        &command,
        &mut state.runtime_seqs,
        "runtime-1",
        &run,
        &outcome,
        &mut state.runtime_transcripts,
        &mut state.runtime_provider_resume_refs,
    );
    assert_eq!(
        kinds(&events),
        vec![EventKind::ProviderOutputDelta, EventKind::ProviderMessageCompleted, EventKind::TurnCompleted, EventKind::RuntimeReady]
    );
    assert_eq!(get_str(&events[1].payload, "content"), Some("Codex fake accepted"));
    assert_eq!(events[3].seq, 6);
    let ready_ref = get(&events[3].payload, "provider_resume_ref").expect("resume ref");
    assert_eq!(get_str(ready_ref, "provider_session_id"), Some("codex-session-1"));
    assert_eq!(state.runtime_transcripts.get("runtime-1").map(Vec::len), Some(2));
    assert_eq!(
        state.runtime_provider_resume_refs.get("runtime-1").and_then(|r| r.provider_session_id.as_deref()),
        Some("codex-session-1")
    );

    let next = adapter.events_for_command(
        &send_turn("again"),
        &mut state.runtime_seqs,
        Some("/tmp/ws"),
        &mut state.runtime_transcripts,
        &mut state.runtime_provider_resume_refs,
    );
    let next_run = next.run.expect("turn runs");
    assert!(matches!(&next_run.invocation, CodexInvocation::Resume { provider_session_id, content } if provider_session_id == "codex-session-1" && content == "again"));
}

#[test]
fn codex_turn_maps_approval_failure_and_empty_output() {
    let adapter = CodexProviderAdapter::new("codex", 5);
    let command = send_turn("change files");
    let mut state = NodeLocalState::with_installation_id("daemon-test".to_owned());
    let step = adapter.events_for_command(
        &command,
        &mut state.runtime_seqs,
        Some("/tmp/ws"),
        &mut state.runtime_transcripts,
        &mut state.runtime_provider_resume_refs,
    );
    let run = step.run.expect("turn runs");
    let approval = CodexExecOutcome::Exited {
        success: true,
        status_code: Some(0),
        stdout: String::new(),
        stderr: String::new(),
        stdout_values: vec![parse(r#"{"type":"approval.requested","approval_id":"approval-codex-1","prompt":"Allow file edit?"}"#)],
        last_message: String::new(),
    };
    let events = adapter.turn_finish(
        &command,
        &mut state.runtime_seqs,
        "runtime-1",
        &run,
        &approval,
        &mut state.runtime_transcripts,
        &mut state.runtime_provider_resume_refs,
    );
    assert_eq!(kinds(&events), vec![EventKind::ApprovalRequested, EventKind::RuntimeBlocked]);
    assert_eq!(get_str(&events[0].payload, "approval_id"), Some("approval-codex-1"));
    assert_eq!(get_str(&events[0].payload, "prompt"), Some("Allow file edit?"));
    assert_eq!(get_str(&events[0].payload, "source"), Some("codex_json_stdout"));
    assert!(state.runtime_transcripts.get("runtime-1").map_or(true, Vec::is_empty));

    let failed = CodexExecOutcome::Exited {
        success: false,
        status_code: Some(42),
        stdout: String::new(),
        stderr: "provider crashed\n".to_owned(),
        stdout_values: vec![],
        last_message: String::new(),
    };
    let events = adapter.turn_finish(&command, &mut state.runtime_seqs, "runtime-1", &run, &failed, &mut state.runtime_transcripts, &mut state.runtime_provider_resume_refs);
    assert_eq!(get_str(&events[0].payload, "code"), Some("provider.exec_failed"));
    assert_eq!(get_str(&events[0].payload, "message"), Some("Codex exec failed with status 42: provider crashed"));

    let empty = CodexExecOutcome::Exited {
        success: true,
        status_code: Some(0),
        stdout: String::new(),
        stderr: String::new(),
        stdout_values: vec![],
        last_message: "  \n".to_owned(),
    };
    let events = adapter.turn_finish(&command, &mut state.runtime_seqs, "runtime-1", &run, &empty, &mut state.runtime_transcripts, &mut state.runtime_provider_resume_refs);
    assert_eq!(get_str(&events[0].payload, "code"), Some("provider.empty_output"));

    let timeout = CodexExecOutcome::StartFailed(codex_timeout_failure(false, 5));
    let events = adapter.turn_finish(&command, &mut state.runtime_seqs, "runtime-1", &run, &timeout, &mut state.runtime_transcripts, &mut state.runtime_provider_resume_refs);
    assert_eq!(get_str(&events[0].payload, "code"), Some("provider.start_timeout"));
}

#[test]
fn codex_start_and_resume_manage_transcript_and_resume_ref() {
    let adapter = CodexProviderAdapter::new("codex", 5);
    let mut state = NodeLocalState::with_installation_id("daemon-test".to_owned());
    state.runtime_transcripts.insert(
        "runtime-1".to_owned(),
        vec![message("user", "first question"), message("assistant", "first answer")],
    );
    let mut resume = send_turn("x");
    resume.kind = CommandKind::ResumeRuntime;
    let step = adapter.events_for_command(&resume, &mut state.runtime_seqs, None, &mut state.runtime_transcripts, &mut state.runtime_provider_resume_refs);
    assert_eq!(kinds(&step.events), vec![EventKind::RuntimeResuming, EventKind::RuntimeReady]);
    assert_eq!(get_str(&step.events[1].payload, "resume_source"), Some("node_local_transcript"));
    assert!(matches!(get(&step.events[1].payload, "transcript_messages"), Some(JsonValue::Number(n)) if n == "2"));

    let mut start = send_turn("x");
    start.kind = CommandKind::StartRuntime;
    let step = adapter.events_for_command(&start, &mut state.runtime_seqs, None, &mut state.runtime_transcripts, &mut state.runtime_provider_resume_refs);
    assert_eq!(kinds(&step.events), vec![EventKind::RuntimeStarting, EventKind::RuntimeReady]);
    assert_eq!(state.runtime_transcripts.get("runtime-1").map(Vec::len), Some(0));

    let mut interrupt = send_turn("x");
    interrupt.kind = CommandKind::InterruptRuntime;
    let step = adapter.events_for_command(&interrupt, &mut state.runtime_seqs, None, &mut state.runtime_transcripts, &mut state.runtime_provider_resume_refs);
    assert_eq!(get_str(&step.events[0].payload, "code"), Some("provider.interrupt_unsupported"));
    assert_eq!(adapter.provider_key(), "codex");
}

#[test]
fn codex_arguments_for_first_and_resumed_turns() {
    let first = CodexRun {
        workspace_path: "/srv/repo".to_owned(),
        turn_id: Some("turn-1".to_owned()),
        content: "hello".to_owned(),
        invocation: CodexInvocation::Exec { prompt: "full prompt".to_owned() },
    };
    assert_eq!(
        codex_arguments(&first, "/tmp/last.txt"),
        vec!["exec", "--cd", "/srv/repo", "--json", "--output-last-message", "/tmp/last.txt", "full prompt"]
    );
    let resumed = CodexRun {
        workspace_path: "/srv/repo".to_owned(),
        turn_id: None,
        content: "again".to_owned(),
        invocation: CodexInvocation::Resume {
            provider_session_id: "codex-session-1".to_owned(),
            content: "again".to_owned(),
        },
    };
    assert_eq!(
        codex_arguments(&resumed, "/tmp/last.txt"),
        vec!["exec", "resume", "--json", "--output-last-message", "/tmp/last.txt", "codex-session-1", "again"]
    );
}
