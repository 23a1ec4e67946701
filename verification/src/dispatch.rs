//! How a node turns a command into the events of a runtime: the plan of events that a
//! provider emits for each kind of command, and their numbering within the runtime's
//! own stream.
use vstd::prelude::*;

use crate::node_state::{next_seq, resume_ref_view, NodeLocalState, ProviderResumeRef};
use crate::projection::view_events;
use crate::protocol::{
    clone_json, clone_opt, clone_refs, json_get, json_get_bool, json_get_str, json_obj0, json_obj1,
    json_obj2, json_obj3, json_str, obj0, obj1, obj2, obj3, opt_view, str_member, view_as_bool,
    view_get, ActorRef, ActorView, CommandEnvelope, CommandView, EventEnvelope, EventView,
    JsonValue, JsonView, ScopeRef, ScopeView,
};
use crate::states::{CommandKind, EventKind};
use crate::strmap::StrMap;
use crate::text::{
    chars_of, concat2, concat3, has_prefix, starts_with_chars, string_from, string_of,
    subrange_chars, trim, trim_chars,
};

verus! {

/// One event that a provider is about to emit: its turn, its kind and its payload.
pub struct PlannedEvent {
    pub turn_id: Option<String>,
    pub kind: EventKind,
    pub payload: JsonValue,
}

/// The mathematical value of a `PlannedEvent`.
pub struct PlanItem {
    pub turn_id: Option<Seq<char>>,
    pub kind: EventKind,
    pub payload: JsonView,
}

impl View for PlannedEvent {
    type V = PlanItem;

    open spec fn view(&self) -> PlanItem {
        PlanItem { turn_id: opt_view(self.turn_id), kind: self.kind, payload: self.payload@ }
    }
}

pub open spec fn item(turn_id: Option<Seq<char>>, kind: EventKind, payload: JsonView) -> PlanItem {
    PlanItem { turn_id, kind, payload }
}

pub open spec fn plan_view(plan: Seq<PlannedEvent>) -> Seq<PlanItem> {
    plan.map_values(|p: PlannedEvent| p@)
}

/// Appends one event to a plan.
pub fn plan_push(plan: &mut Vec<PlannedEvent>, turn_id: Option<String>, kind: EventKind, payload: JsonValue)
    ensures
        plan_view(final(plan)@) == plan_view(old(plan)@).push(item(opt_view(turn_id), kind, payload@)),
{
    plan.push(PlannedEvent { turn_id, kind, payload });
    assert(plan_view(plan@) =~= plan_view(old(plan)@).push(item(opt_view(turn_id), kind, payload@)));
}

/// The last sequence number a runtime used, or zero for a runtime with none yet.
pub open spec fn seq_base(seqs: StrMap<i64>, key: Seq<char>) -> int {
    match seqs.find(key) {
        Some(s) => s as int,
        None => 0,
    }
}

/// `seqs` is `old` with the runtime `rid` moved on by `n` numbers.
pub open spec fn seqs_advanced(old: StrMap<i64>, seqs: StrMap<i64>, rid: Seq<char>, n: int) -> bool {
    forall|k: Seq<char>| #[trigger]
        seqs.find(k) == if k == rid && n > 0 {
            Some((seq_base(old, rid) + n) as i64)
        } else {
            old.find(k)
        }
}

/// `e` is the event that `provider` emits for command `c` in runtime `rid` as the item
/// `p` of its plan, numbered `seq`. Its id and its time are fresh and not stated.
pub open spec fn command_event(
    e: EventView,
    provider: Seq<char>,
    c: CommandView,
    rid: Seq<char>,
    p: PlanItem,
    seq: int,
) -> bool {
    &&& e.command_id == Some(c.command_id)
    &&& e.correlation_id == Some(c.correlation_id)
    &&& e.actor_ref == ActorView::Provider { provider }
    &&& e.scope_ref == ScopeView::Runtime { runtime_session_id: rid }
    &&& e.node_id == Some(c.target_node_id)
    &&& e.runtime_session_id == Some(rid)
    &&& e.session_thread_id == c.session_thread_id
    &&& e.turn_id == p.turn_id
    &&& e.seq == seq
    &&& e.kind == p.kind
    &&& e.source_refs.len() == 0
    &&& e.evidence_refs.len() == 0
    &&& e.cause_refs == c.cause_refs
    &&& e.result_refs.len() == 0
    &&& e.payload == p.payload
}

/// `events` are the events of `plan`, in order, numbered on from `base`.
pub open spec fn emits_plan(
    events: Seq<EventView>,
    provider: Seq<char>,
    c: CommandView,
    rid: Seq<char>,
    plan: Seq<PlanItem>,
    base: int,
) -> bool {
    &&& events.len() == plan.len()
    &&& forall|i: int|
        0 <= i < plan.len() ==> command_event(#[trigger] events[i], provider, c, rid, plan[i], base + i + 1)
}

/// The event that `provider_key` emits for `command` in runtime `runtime_session_id`,
/// numbered next in that runtime's stream.
pub fn event_for_command(
    provider_key: &str,
    command: &CommandEnvelope,
    runtime_seqs: &mut StrMap<i64>,
    runtime_session_id: &str,
    turn_id: Option<String>,
    kind: EventKind,
    payload: JsonValue,
) -> (e: EventEnvelope)
    requires
        old(runtime_seqs).wf(),
        seq_base(*old(runtime_seqs), runtime_session_id@) < i64::MAX,
    ensures
        final(runtime_seqs).wf(),
        command_event(
            e@,
            provider_key@,
            command@,
            runtime_session_id@,
            item(opt_view(turn_id), kind, payload@),
            seq_base(*old(runtime_seqs), runtime_session_id@) + 1,
        ),
        seqs_advanced(*old(runtime_seqs), *final(runtime_seqs), runtime_session_id@, 1),
{
    let seq = next_seq(runtime_seqs, runtime_session_id);
    let rid = string_from(runtime_session_id);
    EventEnvelope {
        event_id: crate::system::new_uuid(),
        command_id: Some(command.command_id.clone()),
        correlation_id: Some(command.correlation_id.clone()),
        actor_ref: ActorRef::Provider { provider: string_from(provider_key) },
        scope_ref: ScopeRef::Runtime { runtime_session_id: rid.clone() },
        node_id: Some(command.target_node_id.clone()),
        runtime_session_id: Some(rid),
        session_thread_id: clone_opt(&command.session_thread_id),
        turn_id,
        seq,
        kind,
        happened_at: crate::system::now_millis(),
        source_refs: Vec::new(),
        evidence_refs: Vec::new(),
        cause_refs: clone_refs(&command.cause_refs),
        result_refs: Vec::new(),
        payload,
    }
}

/// The events of `plan`, in order, each numbered next in runtime `runtime_session_id`.
pub fn emit_plan(
    provider_key: &str,
    command: &CommandEnvelope,
    runtime_seqs: &mut StrMap<i64>,
    runtime_session_id: &str,
    plan: &Vec<PlannedEvent>,
) -> (r: Vec<EventEnvelope>)
    requires
        old(runtime_seqs).wf(),
        seq_base(*old(runtime_seqs), runtime_session_id@) + plan@.len() <= i64::MAX,
    ensures
        final(runtime_seqs).wf(),
        emits_plan(
            view_events(r@),
            provider_key@,
            command@,
            runtime_session_id@,
            plan_view(plan@),
            seq_base(*old(runtime_seqs), runtime_session_id@),
        ),
        seqs_advanced(*old(runtime_seqs), *final(runtime_seqs), runtime_session_id@, plan@.len() as int),
{
    let ghost base = seq_base(*old(runtime_seqs), runtime_session_id@);
    let ghost pv = plan_view(plan@);
    let mut out: Vec<EventEnvelope> = Vec::new();
    let mut i: usize = 0;
    while i < plan.len()
        invariant
            i <= plan@.len(),
            runtime_seqs.wf(),
            base == seq_base(*old(runtime_seqs), runtime_session_id@),
            base + plan@.len() <= i64::MAX,
            pv == plan_view(plan@),
            emits_plan(view_events(out@), provider_key@, command@, runtime_session_id@, pv.take(i as int), base),
            seqs_advanced(*old(runtime_seqs), *runtime_seqs, runtime_session_id@, i as int),
        decreases plan@.len() - i,
    {
        let p = &plan[i];
        assert(runtime_seqs.find(runtime_session_id@) == if i > 0 {
            Some((base + i) as i64)
        } else {
            old(runtime_seqs).find(runtime_session_id@)
        });
        let ghost mid = *runtime_seqs;
        let e = event_for_command(
            provider_key,
            command,
            runtime_seqs,
            runtime_session_id,
            clone_opt(&p.turn_id),
            p.kind,
            clone_json(&p.payload),
        );
        let ghost before = out@;
        out.push(e);
        proof {
            assert(pv[i as int] == p@);
            assert(pv.take(i + 1) =~= pv.take(i as int).push(p@));
            assert(view_events(out@) =~= view_events(before).push(e@));
            assert forall|k: Seq<char>| #[trigger] runtime_seqs.find(k) == if k == runtime_session_id@ {
                Some((base + i + 1) as i64)
            } else {
                old(runtime_seqs).find(k)
            } by {
                assert(seq_base(mid, runtime_session_id@) == base + i);
            }
        }
        i += 1;
    }
    assert(pv.take(plan@.len() as int) =~= pv);
    out
}


/// `s`, or `default` when `s` is empty.
pub open spec fn nonempty_or(s: Seq<char>, default: Seq<char>) -> Seq<char> {
    if s.len() > 0 {
        s
    } else {
        default
    }
}

/// The text of `o`, or `default` when there is none.
pub open spec fn str_or(o: Option<Seq<char>>, default: Seq<char>) -> Seq<char> {
    match o {
        Some(s) => s,
        None => default,
    }
}

/// The string `value` after the leading `prefix`, trimmed, or `default` when nothing
/// is left: the argument of a slash command.
pub open spec fn command_argument(value: Seq<char>, prefix: Seq<char>, default: Seq<char>) -> Seq<
    char,
> {
    nonempty_or(trim(value.skip(prefix.len() as int)), default)
}

/// The argument of the slash command `prefix` that opens `value`, or `default`.
fn command_argument_exec(value: &Vec<char>, prefix: &Vec<char>, default: &str) -> (r: String)
    requires
        prefix@.len() <= value@.len(),
    ensures
        r@ == command_argument(value@, prefix@, default@),
{
    let rest = subrange_chars(value, prefix.len(), value.len());
    assert(rest@ =~= value@.skip(prefix@.len() as int));
    let t = trim_chars(&rest);
    if t.len() > 0 {
        string_of(&t)
    } else {
        string_from(default)
    }
}

/// The payload of the events that report a provider's runtime as up.
pub open spec fn provider_payload(provider: Seq<char>) -> JsonView {
    obj1("provider"@, JsonView::Str(provider))
}

/// What the fake provider emits for one turn: running, the turn's start, then either an
/// approval request that blocks the runtime (`/approval`), a runtime error (`/error`),
/// or an echo of the content that completes the turn.
pub open spec fn fake_turn_plan(payload: JsonView, approval_id: Seq<char>) -> Seq<PlanItem> {
    let turn = str_member(payload, "turn_id"@);
    let content = str_or(str_member(payload, "content"@), ""@);
    let t = trim(content);
    let ready = provider_payload("fake"@);
    let head = seq![item(None, EventKind::RuntimeRunning, ready), item(turn, EventKind::TurnStarted, obj0())];
    if has_prefix(t, "/approval"@) {
        let prompt = command_argument(t, "/approval"@, "Fake provider approval requested"@);
        head + seq![
            item(
                turn,
                EventKind::ApprovalRequested,
                obj2("approval_id"@, JsonView::Str(approval_id), "prompt"@, JsonView::Str(prompt)),
            ),
            item(None, EventKind::RuntimeBlocked, ready),
        ]
    } else if has_prefix(t, "/error"@) {
        let message = command_argument(t, "/error"@, "Fake provider runtime error"@);
        head + seq![item(turn, EventKind::RuntimeError, obj1("message"@, JsonView::Str(message)))]
    } else {
        let text = "Fake provider accepted: "@ + content;
        head + seq![
            item(turn, EventKind::ProviderOutputDelta, obj1("delta"@, JsonView::Str(text))),
            item(turn, EventKind::ProviderMessageCompleted, obj1("content"@, JsonView::Str(text))),
            item(turn, EventKind::TurnCompleted, obj0()),
            item(None, EventKind::RuntimeReady, ready),
        ]
    }
}

/// What a provider emits when an approval is resolved: the resolution, then the
/// runtime's return to ready with payload `ready`.
pub open spec fn resolve_plan(payload: JsonView, ready: JsonView) -> Seq<PlanItem> {
    let approved = match view_as_bool(view_get(payload, "approved"@)) {
        Some(b) => b,
        None => false,
    };
    let approval_id = str_or(str_member(payload, "approval_id"@), "unknown"@);
    let message = str_or(
        str_member(payload, "message"@),
        if approved {
            "Approval accepted"@
        } else {
            "Approval denied"@
        },
    );
    seq![
        item(
            None,
            EventKind::ApprovalResolved,
            obj3(
                "approval_id"@,
                JsonView::Str(approval_id),
                "approved"@,
                JsonView::Bool(approved),
                "message"@,
                JsonView::Str(message),
            ),
        ),
        item(None, EventKind::RuntimeReady, ready),
    ]
}

/// Everything the fake provider emits for a command of `kind` with `payload`; a
/// requested approval is given the id `approval_id`.
pub open spec fn fake_plan(kind: CommandKind, payload: JsonView, approval_id: Seq<char>) -> Seq<PlanItem> {
    let ready = provider_payload("fake"@);
    match kind {
        CommandKind::StartRuntime => seq![
            item(None, EventKind::RuntimeStarting, ready),
            item(None, EventKind::RuntimeReady, ready),
        ],
        CommandKind::ResumeRuntime => seq![
            item(None, EventKind::RuntimeResuming, ready),
            item(None, EventKind::RuntimeReady, ready),
        ],
        CommandKind::SendTurn => fake_turn_plan(payload, approval_id),
        CommandKind::ResolveApproval => resolve_plan(payload, ready),
        CommandKind::InterruptRuntime => seq![
            item(None, EventKind::TurnInterrupted, obj0()),
            item(None, EventKind::RuntimeReady, ready),
        ],
        CommandKind::StopRuntime => seq![item(None, EventKind::RuntimeStopped, obj0())],
        _ => seq![],
    }
}

/// The payload `{"provider": provider}`.
fn provider_payload_exec(provider: &str) -> (r: JsonValue)
    ensures
        r@ == provider_payload(provider@),
{
    json_obj1("provider", json_str(provider))
}

/// The optional string member `key` of `payload`, copied.
pub fn payload_string(payload: &JsonValue, key: &str) -> (r: Option<String>)
    ensures
        opt_view(r) == str_member(payload@, key@),
{
    match json_get_str(payload, key) {
        Some(s) => Some(string_from(s)),
        None => None,
    }
}

fn fake_turn_plan_exec(payload: &JsonValue, approval_id: &str) -> (r: Vec<PlannedEvent>)
    ensures
        plan_view(r@) == fake_turn_plan(payload@, approval_id@),
{
    let turn = payload_string(payload, "turn_id");
    let content: &str = match json_get_str(payload, "content") {
        Some(s) => s,
        None => "",
    };
    assert(content@ == str_or(str_member(payload@, "content"@), ""@));
    let cv = chars_of(content);
    let t = trim_chars(&cv);
    let ghost head = seq![
        item(None, EventKind::RuntimeRunning, provider_payload("fake"@)),
        item(opt_view(turn), EventKind::TurnStarted, obj0()),
    ];
    let mut r: Vec<PlannedEvent> = Vec::new();
    plan_push(&mut r, None, EventKind::RuntimeRunning, provider_payload_exec("fake"));
    plan_push(&mut r, clone_opt(&turn), EventKind::TurnStarted, json_obj0());
    assert(plan_view(r@) =~= head);
    let approval = chars_of("/approval");
    let error = chars_of("/error");
    if starts_with_chars(&t, &approval) {
        let prompt = command_argument_exec(&t, &approval, "Fake provider approval requested");
        plan_push(
            &mut r,
            clone_opt(&turn),
            EventKind::ApprovalRequested,
            json_obj2("approval_id", json_str(approval_id), "prompt", JsonValue::Str(prompt)),
        );
        plan_push(&mut r, None, EventKind::RuntimeBlocked, provider_payload_exec("fake"));
        assert(plan_view(r@) =~= fake_turn_plan(payload@, approval_id@));
    } else if starts_with_chars(&t, &error) {
        let message = command_argument_exec(&t, &error, "Fake provider runtime error");
        plan_push(&mut r, clone_opt(&turn), EventKind::RuntimeError, json_obj1("message", JsonValue::Str(message)));
        assert(plan_view(r@) =~= fake_turn_plan(payload@, approval_id@));
    } else {
        let text = concat2("Fake provider accepted: ", content);
        plan_push(
            &mut r,
            clone_opt(&turn),
            EventKind::ProviderOutputDelta,
            json_obj1("delta", JsonValue::Str(text.clone())),
        );
        plan_push(
            &mut r,
            clone_opt(&turn),
            EventKind::ProviderMessageCompleted,
            json_obj1("content", JsonValue::Str(text)),
        );
        plan_push(&mut r, clone_opt(&turn), EventKind::TurnCompleted, json_obj0());
        plan_push(&mut r, None, EventKind::RuntimeReady, provider_payload_exec("fake"));
        assert(plan_view(r@) =~= fake_turn_plan(payload@, approval_id@));
    }
    r
}

/// The events of an approval's resolution, as a plan.
pub fn resolve_plan_exec(payload: &JsonValue, ready: JsonValue) -> (r: Vec<PlannedEvent>)
    ensures
        plan_view(r@) == resolve_plan(payload@, ready@),
{
    let approved = match json_get_bool(payload, "approved") {
        Some(b) => b,
        None => false,
    };
    let approval_id: &str = match json_get_str(payload, "approval_id") {
        Some(s) => s,
        None => "unknown",
    };
    let default_message: &str = if approved {
        "Approval accepted"
    } else {
        "Approval denied"
    };
    let message: &str = match json_get_str(payload, "message") {
        Some(s) => s,
        None => default_message,
    };
    let mut r: Vec<PlannedEvent> = Vec::new();
    plan_push(
        &mut r,
        None,
        EventKind::ApprovalResolved,
        json_obj3(
            "approval_id",
            json_str(approval_id),
            "approved",
            JsonValue::Bool(approved),
            "message",
            json_str(message),
        ),
    );
    plan_push(&mut r, None, EventKind::RuntimeReady, ready);
    assert(plan_view(r@) =~= resolve_plan(payload@, ready@));
    r
}

/// The fake provider's plan for `command`.
pub fn fake_plan_exec(command: &CommandEnvelope, approval_id: &str) -> (r: Vec<PlannedEvent>)
    ensures
        plan_view(r@) == fake_plan(command@.kind, command@.payload, approval_id@),
{
    let mut r: Vec<PlannedEvent> = Vec::new();
    match command.kind {
        CommandKind::StartRuntime => {
            plan_push(&mut r, None, EventKind::RuntimeStarting, provider_payload_exec("fake"));
            plan_push(&mut r, None, EventKind::RuntimeReady, provider_payload_exec("fake"));
        },
        CommandKind::ResumeRuntime => {
            plan_push(&mut r, None, EventKind::RuntimeResuming, provider_payload_exec("fake"));
            plan_push(&mut r, None, EventKind::RuntimeReady, provider_payload_exec("fake"));
        },
        CommandKind::SendTurn => {
            return fake_turn_plan_exec(&command.payload, approval_id);
        },
        CommandKind::ResolveApproval => {
            return resolve_plan_exec(&command.payload, provider_payload_exec("fake"));
        },
        CommandKind::InterruptRuntime => {
            plan_push(&mut r, None, EventKind::TurnInterrupted, json_obj0());
            plan_push(&mut r, None, EventKind::RuntimeReady, provider_payload_exec("fake"));
        },
        CommandKind::StopRuntime => {
            plan_push(&mut r, None, EventKind::RuntimeStopped, json_obj0());
        },
        _ => {},
    }
    assert(plan_view(r@) =~= fake_plan(command@.kind, command@.payload, approval_id@));
    r
}


/// The payload of a runtime error: its code and message.
pub open spec fn error_payload(code: Seq<char>, message: Seq<char>) -> JsonView {
    obj2("code"@, JsonView::Str(code), "message"@, JsonView::Str(message))
}

/// The payload `{"code": code, "message": message}`.
pub fn error_payload_exec(code: &str, message: &str) -> (r: JsonValue)
    ensures
        r@ == error_payload(code@, message@),
{
    json_obj2("code", json_str(code), "message", json_str(message))
}

/// A runtime error event for `command`, with `code` and `message`.
pub fn runtime_error_event(
    provider_key: &str,
    command: &CommandEnvelope,
    runtime_seqs: &mut StrMap<i64>,
    runtime_session_id: &str,
    turn_id: Option<String>,
    code: &str,
    message: &str,
) -> (e: EventEnvelope)
    requires
        old(runtime_seqs).wf(),
        seq_base(*old(runtime_seqs), runtime_session_id@) < i64::MAX,
    ensures
        final(runtime_seqs).wf(),
        command_event(
            e@,
            provider_key@,
            command@,
            runtime_session_id@,
            item(opt_view(turn_id), EventKind::RuntimeError, error_payload(code@, message@)),
            seq_base(*old(runtime_seqs), runtime_session_id@) + 1,
        ),
        seqs_advanced(*old(runtime_seqs), *final(runtime_seqs), runtime_session_id@, 1),
{
    event_for_command(
        provider_key,
        command,
        runtime_seqs,
        runtime_session_id,
        turn_id,
        EventKind::RuntimeError,
        error_payload_exec(code, message),
    )
}

/// Room for `n` more numbers in the stream of the runtime that `c` addresses.
pub open spec fn seq_room(seqs: StrMap<i64>, c: CommandView, n: int) -> bool {
    c.runtime_session_id matches Some(rid) ==> seq_base(seqs, rid) + n <= i64::MAX
}

/// What an adapter did for command `c`: no events and no numbers used when `c`
/// addresses no runtime, else exactly the events of `plan`, numbered on in that
/// runtime's stream.
pub open spec fn emitted_for_command(
    events: Seq<EventView>,
    provider: Seq<char>,
    c: CommandView,
    plan: Seq<PlanItem>,
    old_seqs: StrMap<i64>,
    seqs: StrMap<i64>,
) -> bool {
    match c.runtime_session_id {
        None => events.len() == 0 && seqs == old_seqs,
        Some(rid) => emits_plan(events, provider, c, rid, plan, seq_base(old_seqs, rid)) && seqs_advanced(
            old_seqs,
            seqs,
            rid,
            plan.len() as int,
        ),
    }
}

proof fn lemma_fake_plan_len(kind: CommandKind, payload: JsonView, approval_id: Seq<char>)
    ensures
        fake_plan(kind, payload, approval_id).len() <= 6,
{
    let t = trim(str_or(str_member(payload, "content"@), ""@));
    if kind == CommandKind::SendTurn {
        if has_prefix(t, "/approval"@) {
        } else if has_prefix(t, "/error"@) {
        } else {
        }
    }
}

/// The provider that answers every command with scripted events, for development and
/// tests.
pub struct FakeProviderAdapter;

impl FakeProviderAdapter {
    pub fn provider_key(&self) -> (r: &'static str)
        ensures
            r@ == "fake"@,
    {
        "fake"
    }

    /// The scripted events for `command`. A requested approval gets a fresh random id,
    /// which nothing states.
    pub fn events_for_command(&self, command: &CommandEnvelope, runtime_seqs: &mut StrMap<i64>) -> (r:
        Vec<EventEnvelope>)
        requires
            old(runtime_seqs).wf(),
            seq_room(*old(runtime_seqs), command@, 6),
        ensures
            final(runtime_seqs).wf(),
            exists|approval_id: Seq<char>|
                emitted_for_command(
                    view_events(r@),
                    "fake"@,
                    command@,
                    #[trigger] fake_plan(command@.kind, command@.payload, approval_id),
                    *old(runtime_seqs),
                    *final(runtime_seqs),
                ),
    {
        match &command.runtime_session_id {
            None => {
                let r: Vec<EventEnvelope> = Vec::new();
                assert(emitted_for_command(
                    view_events(r@),
                    "fake"@,
                    command@,
                    fake_plan(command@.kind, command@.payload, ""@),
                    *old(runtime_seqs),
                    *runtime_seqs,
                ));
                r
            },
            Some(rid) => {
                let approval_id = if command.kind == CommandKind::SendTurn {
                    crate::system::new_uuid()
                } else {
                    String::new()
                };
                let plan = fake_plan_exec(command, approval_id.as_str());
                proof {
                    lemma_fake_plan_len(command@.kind, command@.payload, approval_id@);
                }
                let r = emit_plan(self.provider_key(), command, runtime_seqs, rid.as_str(), &plan);
                assert(emitted_for_command(
                    view_events(r@),
                    "fake"@,
                    command@,
                    fake_plan(command@.kind, command@.payload, approval_id@),
                    *old(runtime_seqs),
                    *runtime_seqs,
                ));
                r
            },
        }
    }
}

/// What a node answers for a provider it does not know: one runtime error.
pub open spec fn unsupported_plan(provider: Seq<char>) -> Seq<PlanItem> {
    seq![
        item(
            None,
            EventKind::RuntimeError,
            error_payload(
                "provider.unsupported"@,
                "Provider `"@ + provider + "` is not supported by this node"@,
            ),
        ),
    ]
}

/// The stand-in for a provider this node does not support.
pub struct UnsupportedProviderAdapter {
    pub provider_key: String,
}

impl UnsupportedProviderAdapter {
    pub fn events_for_command(&self, command: &CommandEnvelope, runtime_seqs: &mut StrMap<i64>) -> (r:
        Vec<EventEnvelope>)
        requires
            old(runtime_seqs).wf(),
            seq_room(*old(runtime_seqs), command@, 1),
        ensures
            final(runtime_seqs).wf(),
            emitted_for_command(
                view_events(r@),
                self.provider_key@,
                command@,
                unsupported_plan(self.provider_key@),
                *old(runtime_seqs),
                *final(runtime_seqs),
            ),
    {
        match &command.runtime_session_id {
            None => Vec::new(),
            Some(rid) => {
                let message = concat3(
                    "Provider `",
                    self.provider_key.as_str(),
                    "` is not supported by this node",
                );
                let mut plan: Vec<PlannedEvent> = Vec::new();
                plan_push(
                    &mut plan,
                    None,
                    EventKind::RuntimeError,
                    error_payload_exec("provider.unsupported", message.as_str()),
                );
                assert(plan_view(plan@) =~= unsupported_plan(self.provider_key@));
                emit_plan(self.provider_key.as_str(), command, runtime_seqs, rid.as_str(), &plan)
            },
        }
    }
}


/// The string member `key` of a payload, trimmed, when it is not blank.
pub open spec fn payload_text(payload: JsonView, key: Seq<char>) -> Option<Seq<char>> {
    match str_member(payload, key) {
        Some(s) => if trim(s).len() > 0 {
            Some(trim(s))
        } else {
            None
        },
        None => None,
    }
}

/// The string member `key` of the command's payload, trimmed, when it is not blank.
pub fn command_payload_str(command: &CommandEnvelope, key: &str) -> (r: Option<String>)
    ensures
        opt_view(r) == payload_text(command@.payload, key@),
{
    json_text(&command.payload, key)
}

/// The string member `key` of `value`, trimmed, when it is not blank.
pub fn json_text(value: &JsonValue, key: &str) -> (r: Option<String>)
    ensures
        opt_view(r) == payload_text(value@, key@),
{
    match json_get_str(value, key) {
        Some(s) => {
            let t = crate::text::trim_str(s);
            if t.as_str().is_empty() {
                None
            } else {
                Some(t)
            }
        },
        None => None,
    }
}


/// A resume reference's member `key`: its trimmed text, cut to 512 characters, when
/// it is not blank.
pub open spec fn resume_member(v: JsonView, key: Seq<char>) -> Option<Seq<char>> {
    match payload_text(v, key) {
        Some(t) => Some(crate::text::bounded(t, 512)),
        None => None,
    }
}

/// The resume reference that a JSON value describes: a provider session id and a resume
/// cursor, at least one of them present.
pub open spec fn resume_ref_spec(v: JsonView) -> Option<(Option<Seq<char>>, Option<Seq<char>>)> {
    let a = resume_member(v, "provider_session_id"@);
    let b = resume_member(v, "resume_cursor"@);
    if a is None && b is None {
        None
    } else {
        Some((a, b))
    }
}

fn resume_member_exec(value: &JsonValue, key: &str) -> (r: Option<String>)
    ensures
        opt_view(r) == resume_member(value@, key@),
{
    match json_text(value, key) {
        Some(t) => Some(crate::text::bounded_text(t.as_str(), 512)),
        None => None,
    }
}

/// The resume reference that `value` describes, if any.
pub fn provider_resume_ref_from_json(value: &JsonValue) -> (r: Option<ProviderResumeRef>)
    ensures
        match r {
            Some(x) => resume_ref_spec(value@) == Some(resume_ref_view(x)),
            None => resume_ref_spec(value@) is None,
        },
{
    let provider_session_id = resume_member_exec(value, "provider_session_id");
    let resume_cursor = resume_member_exec(value, "resume_cursor");
    if provider_session_id.is_none() && resume_cursor.is_none() {
        None
    } else {
        Some(ProviderResumeRef { provider_session_id, resume_cursor })
    }
}

/// The resume reference carried in the `provider_resume_ref` member of a payload.
pub open spec fn payload_resume_ref(payload: JsonView) -> Option<(Option<Seq<char>>, Option<Seq<char>>)> {
    match view_get(payload, "provider_resume_ref"@) {
        Some(v) => resume_ref_spec(v),
        None => None,
    }
}

/// The resume reference that `command` carries, if any.
pub fn command_provider_resume_ref(command: &CommandEnvelope) -> (r: Option<ProviderResumeRef>)
    ensures
        match r {
            Some(x) => payload_resume_ref(command@.payload) == Some(resume_ref_view(x)),
            None => payload_resume_ref(command@.payload) is None,
        },
{
    match json_get(&command.payload, "provider_resume_ref") {
        Some(v) => provider_resume_ref_from_json(v),
        None => None,
    }
}

/// The JSON form of a resume reference: its present members, session id first.
pub open spec fn resume_ref_json(r: (Option<Seq<char>>, Option<Seq<char>>)) -> JsonView {
    let a: Seq<(Seq<char>, JsonView)> = match r.0 {
        Some(s) => seq![("provider_session_id"@, JsonView::Str(s))],
        None => seq![],
    };
    let b: Seq<(Seq<char>, JsonView)> = match r.1 {
        Some(s) => seq![("resume_cursor"@, JsonView::Str(s))],
        None => seq![],
    };
    JsonView::Object(a + b)
}

pub fn provider_resume_ref_json(resume_ref: &ProviderResumeRef) -> (r: JsonValue)
    ensures
        r@ == resume_ref_json(resume_ref_view(*resume_ref)),
{
    let ghost rv = resume_ref_view(*resume_ref);
    let ghost a: Seq<(Seq<char>, JsonView)> = match rv.0 {
        Some(s) => seq![("provider_session_id"@, JsonView::Str(s))],
        None => seq![],
    };
    let ghost b: Seq<(Seq<char>, JsonView)> = match rv.1 {
        Some(s) => seq![("resume_cursor"@, JsonView::Str(s))],
        None => seq![],
    };
    let mut es: Vec<(String, JsonValue)> = Vec::new();
    assert(crate::protocol::entries_view(es@, 0) =~= seq![]);
    if let Some(id) = &resume_ref.provider_session_id {
        crate::protocol::push_member(&mut es, "provider_session_id", json_str(id.as_str()));
    }
    assert(crate::protocol::entries_view(es@, es@.len()) =~= a);
    if let Some(cursor) = &resume_ref.resume_cursor {
        crate::protocol::push_member(&mut es, "resume_cursor", json_str(cursor.as_str()));
    }
    assert(crate::protocol::entries_view(es@, es@.len()) =~= a + b);
    let r = crate::protocol::json_object(es);
    assert(r@ =~= resume_ref_json(resume_ref_view(*resume_ref)));
    r
}

/// Two optional strings hold the same text.
pub fn opt_str_eq(a: &Option<String>, b: &Option<String>) -> (r: bool)
    ensures
        r == (opt_view(*a) == opt_view(*b)),
{
    match (a, b) {
        (Some(x), Some(y)) => crate::text::str_eq(x.as_str(), y.as_str()),
        (None, None) => true,
        _ => false,
    }
}

/// The text under `k` in a map of strings.
pub open spec fn str_find(m: StrMap<String>, k: Seq<char>) -> Option<Seq<char>> {
    match m.find(k) {
        Some(v) => Some(v@),
        None => None,
    }
}

/// The resume reference under `k`.
pub open spec fn ref_find(m: StrMap<ProviderResumeRef>, k: Seq<char>) -> Option<
    (Option<Seq<char>>, Option<Seq<char>>),
> {
    match m.find(k) {
        Some(v) => Some(resume_ref_view(v)),
        None => None,
    }
}

/// Sets `key` to `value` unless it already holds that text; tells whether it changed.
pub fn insert_if_changed(map: &mut StrMap<String>, key: String, value: String) -> (changed: bool)
    requires
        old(map).wf(),
    ensures
        final(map).wf(),
        changed == (str_find(*old(map), key@) != Some(value@)),
        forall|k: Seq<char>| #[trigger]
            str_find(*final(map), k) == if k == key@ {
                Some(value@)
            } else {
                str_find(*old(map), k)
            },
        !changed ==> *final(map) == *old(map),
{
    let same = match map.get(key.as_str()) {
        Some(v) => crate::text::str_eq(v.as_str(), value.as_str()),
        None => false,
    };
    if same {
        return false;
    }
    let ghost kv = key@;
    let ghost vv = value@;
    map.insert(key, value);
    assert forall|k: Seq<char>| #[trigger] str_find(*map, k) == if k == kv {
        Some(vv)
    } else {
        str_find(*old(map), k)
    } by {
        assert(map.find(k) == if k == kv {
            Some(value)
        } else {
            old(map).find(k)
        });
    }
    true
}

/// Sets `key` to the resume reference `value` unless it already holds an equal one;
/// tells whether it changed.
pub fn insert_resume_ref_if_changed(
    map: &mut StrMap<ProviderResumeRef>,
    key: String,
    value: ProviderResumeRef,
) -> (changed: bool)
    requires
        old(map).wf(),
    ensures
        final(map).wf(),
        changed == (ref_find(*old(map), key@) != Some(resume_ref_view(value))),
        forall|k: Seq<char>| #[trigger]
            ref_find(*final(map), k) == if k == key@ {
                Some(resume_ref_view(value))
            } else {
                ref_find(*old(map), k)
            },
        !changed ==> *final(map) == *old(map),
{
    let same = match map.get(key.as_str()) {
        Some(v) => opt_str_eq(&v.provider_session_id, &value.provider_session_id) && opt_str_eq(
            &v.resume_cursor,
            &value.resume_cursor,
        ),
        None => false,
    };
    if same {
        return false;
    }
    let ghost kv = key@;
    let ghost vv = resume_ref_view(value);
    map.insert(key, value);
    assert forall|k: Seq<char>| #[trigger] ref_find(*map, k) == if k == kv {
        Some(vv)
    } else {
        ref_find(*old(map), k)
    } by {
        assert(map.find(k) == if k == kv {
            Some(value)
        } else {
            old(map).find(k)
        });
    }
    true
}


/// The provider a command names for its runtime: a start names one, `fake` when its
/// payload names none; a resume names one only when its payload does.
pub open spec fn provider_update(c: CommandView) -> Option<Seq<char>> {
    match c.kind {
        CommandKind::StartRuntime => Some(str_or(payload_text(c.payload, "provider"@), "fake"@)),
        CommandKind::ResumeRuntime => payload_text(c.payload, "provider"@),
        _ => None,
    }
}

/// The workspace path that a start or resume names for its runtime.
pub open spec fn workspace_update(c: CommandView) -> Option<Seq<char>> {
    if c.kind == CommandKind::StartRuntime || c.kind == CommandKind::ResumeRuntime {
        payload_text(c.payload, "workspace_path"@)
    } else {
        None
    }
}

/// The resume reference that a resume carries for its runtime.
pub open spec fn resume_ref_update(c: CommandView) -> Option<(Option<Seq<char>>, Option<Seq<char>>)> {
    if c.kind == CommandKind::ResumeRuntime {
        payload_resume_ref(c.payload)
    } else {
        None
    }
}

/// `new` is `old` with the runtime `rid` set to `upd` where there is one.
pub open spec fn str_map_updated(
    old: StrMap<String>,
    new: StrMap<String>,
    rid: Option<Seq<char>>,
    upd: Option<Seq<char>>,
) -> bool {
    forall|k: Seq<char>| #[trigger]
        str_find(new, k) == if rid is Some && upd is Some && k == rid->0 {
            upd
        } else {
            str_find(old, k)
        }
}

pub open spec fn ref_map_updated(
    old: StrMap<ProviderResumeRef>,
    new: StrMap<ProviderResumeRef>,
    rid: Option<Seq<char>>,
    upd: Option<(Option<Seq<char>>, Option<Seq<char>>)>,
) -> bool {
    forall|k: Seq<char>| #[trigger]
        ref_find(new, k) == if rid is Some && upd is Some && k == rid->0 {
            upd
        } else {
            ref_find(old, k)
        }
}

/// What remembering a command's runtime metadata changes: whether any value it sets
/// differs from the one recorded.
pub open spec fn metadata_changes(s: NodeLocalState, c: CommandView) -> bool {
    match c.runtime_session_id {
        None => false,
        Some(rid) => {
            ||| (provider_update(c) is Some && str_find(s.runtime_providers, rid) != provider_update(c))
            ||| (resume_ref_update(c) is Some && ref_find(s.runtime_provider_resume_refs, rid)
                != resume_ref_update(c))
            ||| (workspace_update(c) is Some && str_find(s.runtime_workspace_paths, rid)
                != workspace_update(c))
        },
    }
}

/// Everything but the runtime metadata maps is the same in `a` and `b`.
pub open spec fn same_but_metadata(a: NodeLocalState, b: NodeLocalState) -> bool {
    &&& a.daemon_installation_id == b.daemon_installation_id
    &&& a.node_id == b.node_id
    &&& a.credential == b.credential
    &&& a.enrollment_id == b.enrollment_id
    &&& a.pairing_code == b.pairing_code
    &&& a.command_status == b.command_status
    &&& a.runtime_seqs == b.runtime_seqs
    &&& a.event_outbox == b.event_outbox
    &&& a.runtime_states == b.runtime_states
    &&& a.runtime_transcripts == b.runtime_transcripts
    &&& a.placement_seqs == b.placement_seqs
}

/// Records the provider, workspace path and resume reference that a start or resume
/// names for its runtime; tells whether anything changed.
pub fn remember_runtime_metadata(state: &mut NodeLocalState, command: &CommandEnvelope) -> (changed:
    bool)
    requires
        old(state).wf(),
    ensures
        final(state).wf(),
        same_but_metadata(*old(state), *final(state)),
        str_map_updated(
            old(state).runtime_providers,
            final(state).runtime_providers,
            command@.runtime_session_id,
            provider_update(command@),
        ),
        str_map_updated(
            old(state).runtime_workspace_paths,
            final(state).runtime_workspace_paths,
            command@.runtime_session_id,
            workspace_update(command@),
        ),
        ref_map_updated(
            old(state).runtime_provider_resume_refs,
            final(state).runtime_provider_resume_refs,
            command@.runtime_session_id,
            resume_ref_update(command@),
        ),
        changed == metadata_changes(*old(state), command@),
{
    let rid = match &command.runtime_session_id {
        Some(r) => r,
        None => {
            return false;
        },
    };
    let mut changed = false;
    let is_start = command.kind == CommandKind::StartRuntime;
    let is_resume = command.kind == CommandKind::ResumeRuntime;
    if is_start {
        let provider = match command_payload_str(command, "provider") {
            Some(p) => p,
            None => string_from("fake"),
        };
        changed = insert_if_changed(&mut state.runtime_providers, rid.clone(), provider);
    } else if is_resume {
        if let Some(provider) = command_payload_str(command, "provider") {
            changed = insert_if_changed(&mut state.runtime_providers, rid.clone(), provider);
        }
        if let Some(resume_ref) = command_provider_resume_ref(command) {
            let c = insert_resume_ref_if_changed(
                &mut state.runtime_provider_resume_refs,
                rid.clone(),
                resume_ref,
            );
            changed = changed || c;
        }
    }
    if is_start || is_resume {
        if let Some(path) = command_payload_str(command, "workspace_path") {
            let c = insert_if_changed(&mut state.runtime_workspace_paths, rid.clone(), path);
            changed = changed || c;
        }
    }
    changed
}

/// The provider that runs `command`: the one its payload names, else the one recorded
/// for its runtime, else `fake`.
pub open spec fn provider_for_command_spec(s: NodeLocalState, c: CommandView) -> Seq<char> {
    match payload_text(c.payload, "provider"@) {
        Some(p) => p,
        None => match c.runtime_session_id {
            Some(rid) => str_or(str_find(s.runtime_providers, rid), "fake"@),
            None => "fake"@,
        },
    }
}

pub fn provider_for_command(state: &NodeLocalState, command: &CommandEnvelope) -> (r: String)
    ensures
        r@ == provider_for_command_spec(*state, command@),
{
    if let Some(p) = command_payload_str(command, "provider") {
        return p;
    }
    if let Some(rid) = &command.runtime_session_id {
        if let Some(p) = state.runtime_providers.get(rid.as_str()) {
            return p.clone();
        }
    }
    string_from("fake")
}

/// The workspace a command runs in: the path its payload names, else the one recorded
/// for its runtime.
pub open spec fn workspace_path_for_command_spec(s: NodeLocalState, c: CommandView) -> Option<Seq<char>> {
    match payload_text(c.payload, "workspace_path"@) {
        Some(p) => Some(p),
        None => match c.runtime_session_id {
            Some(rid) => str_find(s.runtime_workspace_paths, rid),
            None => None,
        },
    }
}

pub fn workspace_path_for_command(state: &NodeLocalState, command: &CommandEnvelope) -> (r: Option<
    String,
>)
    ensures
        opt_view(r) == workspace_path_for_command_spec(*state, command@),
{
    if let Some(p) = command_payload_str(command, "workspace_path") {
        return Some(p);
    }
    if let Some(rid) = &command.runtime_session_id {
        if let Some(p) = state.runtime_workspace_paths.get(rid.as_str()) {
            return Some(p.clone());
        }
    }
    None
}

} // verus!
