//! What the control plane shows of a session: the labels and references of its events
//! and messages, the references a client sees, summaries of recent turns, and the
//! context it resumes with.
use vstd::prelude::*;

use crate::dispatch::{opt_str_eq, resume_ref_json, str_or};
use crate::policy::{badges_view, BadgeView, ResourceBadge, RuntimeSummary};
use crate::projection::{approval_id_of, event_approval_id, view_events};
use crate::protocol::{
    clone_json, clone_opt, clone_scope, json_get, json_get_str, opt_view, refs_view, str_member,
    view_get, CortexRef, EventEnvelope, EventView, JsonValue, JsonView, RefView, ScopeRef, ScopeView,
};
use crate::states::{EventKind, MessageRole, RuntimeSessionState, event_kind_name};
use crate::text::{
    collapse_ws, concat2, decimal, push_str, signed_decimal, snippet, snippet_spec, str_eq, string_from,
    string_of, strings_view, trim, u64_to_string,
};

verus! {

/// How a message role is written in summaries.
pub open spec fn role_label(r: MessageRole) -> Seq<char> {
    match r {
        MessageRole::User => "User"@,
        MessageRole::Assistant => "Assistant"@,
        MessageRole::System => "System"@,
        MessageRole::Runtime => "Runtime"@,
        MessageRole::Approval => "Approval"@,
    }
}

pub fn message_role_label(r: MessageRole) -> (s: &'static str)
    ensures
        s@ == role_label(r),
{
    match r {
        MessageRole::User => "User",
        MessageRole::Assistant => "Assistant",
        MessageRole::System => "System",
        MessageRole::Runtime => "Runtime",
        MessageRole::Approval => "Approval",
    }
}

/// How a runtime state is written in a resume context.
pub open spec fn runtime_state_label(s: RuntimeSessionState) -> Seq<char> {
    match s {
        RuntimeSessionState::Starting => "Starting"@,
        RuntimeSessionState::Ready => "Ready"@,
        RuntimeSessionState::Running => "Running"@,
        RuntimeSessionState::Blocked => "Blocked"@,
        RuntimeSessionState::Stopping => "Stopping"@,
        RuntimeSessionState::Stopped => "Stopped"@,
        RuntimeSessionState::Interrupted => "Interrupted"@,
        RuntimeSessionState::Resuming => "Resuming"@,
        RuntimeSessionState::Stale => "Stale"@,
        RuntimeSessionState::Error => "Error"@,
        RuntimeSessionState::Expired => "Expired"@,
    }
}

pub fn runtime_state_label_exec(s: RuntimeSessionState) -> (r: &'static str)
    ensures
        r@ == runtime_state_label(s),
{
    match s {
        RuntimeSessionState::Starting => "Starting",
        RuntimeSessionState::Ready => "Ready",
        RuntimeSessionState::Running => "Running",
        RuntimeSessionState::Blocked => "Blocked",
        RuntimeSessionState::Stopping => "Stopping",
        RuntimeSessionState::Stopped => "Stopped",
        RuntimeSessionState::Interrupted => "Interrupted",
        RuntimeSessionState::Resuming => "Resuming",
        RuntimeSessionState::Stale => "Stale",
        RuntimeSessionState::Error => "Error",
        RuntimeSessionState::Expired => "Expired",
    }
}

/// A message of a session as the control plane keeps it.
pub struct MessageRecord {
    pub message_id: String,
    pub session_thread_id: String,
    pub role: MessageRole,
    pub content: String,
    pub source_event_id: Option<String>,
}

/// The index of the first event with id `id`, from `i` on; -1 when there is none.
pub open spec fn event_index(events: Seq<EventView>, id: Seq<char>, i: int) -> int
    decreases events.len() - i,
{
    if i < 0 || i >= events.len() {
        -1
    } else if events[i].event_id == id {
        i
    } else {
        event_index(events, id, i + 1)
    }
}

/// The reference to the event a message came from: that event, when it is among
/// `events`, else a reference by id into the message's session; nothing for a message
/// from no event.
pub open spec fn message_source_refs_spec(
    source_event_id: Option<Seq<char>>,
    session_thread_id: Seq<char>,
    events: Seq<EventView>,
) -> Seq<RefView> {
    match source_event_id {
        None => seq![],
        Some(id) => {
            let i = event_index(events, id, 0);
            if i >= 0 {
                seq![RefView::Event { event_id: events[i].event_id, scope_ref: events[i].scope_ref, seq: events[i].seq }]
            } else {
                seq![
                    RefView::Event {
                        event_id: id,
                        scope_ref: ScopeView::Session { session_thread_id },
                        seq: 0,
                    },
                ]
            }
        },
    }
}

#[verifier::loop_isolation(false)]
pub fn message_source_refs(message: &MessageRecord, events: &Vec<EventEnvelope>) -> (r: Vec<CortexRef>)
    ensures
        refs_view(r@) == message_source_refs_spec(
            opt_view(message.source_event_id),
            message.session_thread_id@,
            view_events(events@),
        ),
{
    let ghost ev = view_events(events@);
    let id = match &message.source_event_id {
        None => {
            let r: Vec<CortexRef> = Vec::new();
            assert(refs_view(r@) =~= seq![]);
            return r;
        },
        Some(id) => id,
    };
    let mut i: usize = 0;
    while i < events.len()
        invariant
            i <= events@.len(),
            ev == view_events(events@),
            event_index(ev, id@, 0) == event_index(ev, id@, i as int),
        decreases events@.len() - i,
    {
        assert(ev[i as int] == events@[i as int]@);
        if str_eq(events[i].event_id.as_str(), id.as_str()) {
            let mut r: Vec<CortexRef> = Vec::new();
            r.push(
                CortexRef::Event {
                    event_id: events[i].event_id.clone(),
                    scope_ref: clone_scope(&events[i].scope_ref),
                    seq: events[i].seq,
                },
            );
            assert(refs_view(r@) =~= message_source_refs_spec(
                opt_view(message.source_event_id),
                message.session_thread_id@,
                ev,
            ));
            return r;
        }
        i += 1;
    }
    let mut r: Vec<CortexRef> = Vec::new();
    r.push(
        CortexRef::Event {
            event_id: id.clone(),
            scope_ref: ScopeRef::Session { session_thread_id: message.session_thread_id.clone() },
            seq: 0,
        },
    );
    assert(refs_view(r@) =~= message_source_refs_spec(
        opt_view(message.source_event_id),
        message.session_thread_id@,
        ev,
    ));
    r
}

/// The label of an event in a session's artifacts: an approval request with its
/// prompt, a resolved approval, a runtime error with its message, or the event's kind
/// and number.
pub open spec fn artifact_label_spec(e: EventView) -> Seq<char> {
    match e.kind {
        EventKind::ApprovalRequested => "Approval requested: "@ + snippet_spec(
            str_or(str_member(e.payload, "prompt"@), "approval requested"@),
            80,
        ),
        EventKind::ApprovalResolved => "Approval resolved"@,
        EventKind::RuntimeError => "Runtime error: "@ + snippet_spec(
            str_or(str_member(e.payload, "message"@), "runtime error"@),
            80,
        ),
        _ => event_kind_name(e.kind) + " #"@ + signed_decimal(e.seq),
    }
}

pub fn artifact_label_for_event(event: &EventEnvelope) -> (r: String)
    ensures
        r@ == artifact_label_spec(event@),
{
    match event.kind {
        EventKind::ApprovalRequested => {
            let prompt: &str = match json_get_str(&event.payload, "prompt") {
                Some(p) => p,
                None => "approval requested",
            };
            concat2("Approval requested: ", snippet(prompt, 80).as_str())
        },
        EventKind::ApprovalResolved => string_from("Approval resolved"),
        EventKind::RuntimeError => {
            let message: &str = match json_get_str(&event.payload, "message") {
                Some(m) => m,
                None => "runtime error",
            };
            concat2("Runtime error: ", snippet(message, 80).as_str())
        },
        _ => {
            let mut r = concat2(crate::states::event_kind_label(event.kind), " #");
            let digits = string_of(crate::text::i64_to_chars(event.seq).as_slice());
            push_str(&mut r, digits.as_str());
            r
        },
    }
}

/// The reference a client opens for an event: its approval for an approval event that
/// names one, else the event itself.
pub open spec fn primary_ref_spec(e: EventView) -> RefView {
    if (e.kind == EventKind::ApprovalRequested || e.kind == EventKind::ApprovalResolved)
        && approval_id_of(e) is Some {
        RefView::Approval { approval_id: approval_id_of(e)->0 }
    } else {
        RefView::Event { event_id: e.event_id, scope_ref: e.scope_ref, seq: e.seq }
    }
}

pub fn primary_ref_for_event(event: &EventEnvelope) -> (r: CortexRef)
    ensures
        r@ == primary_ref_spec(event@),
{
    if event.kind == EventKind::ApprovalRequested || event.kind == EventKind::ApprovalResolved {
        if let Some(approval_id) = event_approval_id(event) {
            return CortexRef::Approval { approval_id };
        }
    }
    CortexRef::Event {
        event_id: event.event_id.clone(),
        scope_ref: clone_scope(&event.scope_ref),
        seq: event.seq,
    }
}

/// The roles whose messages a turn summary shows.
pub open spec fn summarized_role(r: MessageRole) -> bool {
    r == MessageRole::User || r == MessageRole::Assistant || r == MessageRole::Approval || r
        == MessageRole::Runtime
}

/// The summaries of the newest messages of the summarized roles, newest first, at most
/// six, counting from the end of `msgs`.
pub open spec fn turn_summaries(msgs: Seq<(MessageRole, Seq<char>)>) -> Seq<Seq<char>>
    decreases msgs.len(),
{
    if msgs.len() == 0 {
        seq![]
    } else {
        let m = msgs.last();
        let rest = turn_summaries(msgs.drop_last());
        let all = if summarized_role(m.0) {
            seq![role_label(m.0) + ": "@ + snippet_spec(m.1, 140)] + rest
        } else {
            rest
        };
        all.take(if all.len() < 6 { all.len() as int } else { 6 })
    }
}

pub open spec fn messages_view(ms: Seq<MessageRecord>) -> Seq<(MessageRole, Seq<char>)> {
    ms.map_values(|m: MessageRecord| (m.role, m.content@))
}

proof fn lemma_turn_summaries_len(msgs: Seq<(MessageRole, Seq<char>)>)
    ensures
        turn_summaries(msgs).len() <= 6,
    decreases msgs.len(),
{
    if msgs.len() > 0 {
        lemma_turn_summaries_len(msgs.drop_last());
    }
}

/// The newest first summaries of recent turns.
pub fn recent_turn_summaries(messages: &Vec<MessageRecord>) -> (r: Vec<String>)
    ensures
        strings_view(r@) == turn_summaries(messages_view(messages@)),
{
    let ghost mv = messages_view(messages@);
    let mut out: Vec<String> = Vec::new();
    let mut i: usize = messages.len();
    proof {
        lemma_turn_summaries_len(mv);
        assert(mv.take(i as int) =~= mv);
        assert(strings_view(out@) + turn_summaries(mv) =~= turn_summaries(mv));
        assert(turn_summaries(mv).take(turn_summaries(mv).len() as int) =~= turn_summaries(mv));
    }
    while i > 0 && out.len() < 6
        invariant
            i <= messages@.len(),
            mv == messages_view(messages@),
            out@.len() <= 6,
            turn_summaries(mv) == (strings_view(out@) + turn_summaries(mv.take(i as int))).take(
                if (strings_view(out@) + turn_summaries(mv.take(i as int))).len() < 6 {
                    (strings_view(out@) + turn_summaries(mv.take(i as int))).len() as int
                } else {
                    6
                },
            ),
        decreases i,
    {
        let m = &messages[i - 1];
        assert(mv[i - 1] == (m.role, m.content@));
        assert(mv.take(i as int).drop_last() =~= mv.take(i - 1));
        assert(mv.take(i as int).last() == mv[i - 1]);
        proof {
            lemma_turn_summaries_len(mv.take(i - 1));
        }
        if m.role == MessageRole::User || m.role == MessageRole::Assistant || m.role
            == MessageRole::Approval || m.role == MessageRole::Runtime {
            let mut s = concat2(message_role_label(m.role), ": ");
            push_str(&mut s, snippet(m.content.as_str(), 140).as_str());
            let ghost before = strings_view(out@);
            out.push(s);
            proof {
                assert(strings_view(out@) =~= before.push(role_label(m.role) + ": "@ + snippet_spec(m.content@, 140)));
                let rest = turn_summaries(mv.take(i - 1));
                let line = role_label(m.role) + ": "@ + snippet_spec(m.content@, 140);
                let all = seq![line] + rest;
                let t = all.take(if all.len() < 6 { all.len() as int } else { 6 });
                assert(turn_summaries(mv.take(i as int)) == t);
                assert((before + t).take(if (before + t).len() < 6 { (before + t).len() as int } else { 6 })
                    =~= (strings_view(out@) + rest).take(if (strings_view(out@) + rest).len() < 6 {
                        (strings_view(out@) + rest).len() as int
                    } else {
                        6
                    }));
            }
        } else {
            assert(turn_summaries(mv.take(i as int)) =~= turn_summaries(mv.take(i - 1)).take(
                if turn_summaries(mv.take(i - 1)).len() < 6 { turn_summaries(mv.take(i - 1)).len() as int } else { 6 },
            ));
            assert(turn_summaries(mv.take(i as int)) =~= turn_summaries(mv.take(i - 1)));
        }
        i -= 1;
    }
    proof {
        let x = strings_view(out@) + turn_summaries(mv.take(i as int));
        if out@.len() >= 6 {
            assert(x.take(6) =~= strings_view(out@));
        } else {
            assert(mv.take(0) =~= Seq::<(MessageRole, Seq<char>)>::empty());
            assert(x =~= strings_view(out@));
        }
    }
    out
}

/// The sentence that sums up how many of `events` carry references of each kind.
pub open spec fn source_cause_summary_spec(total: nat, sources: nat, evidence: nat, causes: nat) -> Seq<char> {
    decimal(total) + " events; "@ + decimal(sources) + " with source refs, "@ + decimal(evidence)
        + " with evidence refs, "@ + decimal(causes)
        + " with cause refs. Missing causality remains explicit."@
}

/// How many of `events` have a reference of the kind `pick` selects.
pub open spec fn count_with(events: Seq<EventView>, which: int) -> nat
    decreases events.len(),
{
    if events.len() == 0 {
        0
    } else {
        let e = events.last();
        let has = if which == 0 {
            e.source_refs.len() > 0
        } else if which == 1 {
            e.evidence_refs.len() > 0
        } else {
            e.cause_refs.len() > 0
        };
        count_with(events.drop_last(), which) + if has {
            1nat
        } else {
            0nat
        }
    }
}

proof fn lemma_count_with_len(events: Seq<EventView>, which: int)
    ensures
        count_with(events, which) <= events.len(),
    decreases events.len(),
{
    if events.len() > 0 {
        lemma_count_with_len(events.drop_last(), which);
    }
}

pub fn source_cause_summary(events: &Vec<EventEnvelope>) -> (r: String)
    ensures
        r@ == source_cause_summary_spec(
            events@.len(),
            count_with(view_events(events@), 0),
            count_with(view_events(events@), 1),
            count_with(view_events(events@), 2),
        ),
{
    let ghost ev = view_events(events@);
    let mut s: u64 = 0;
    let mut d: u64 = 0;
    let mut c: u64 = 0;
    let mut i: usize = 0;
    while i < events.len()
        invariant
            i <= events@.len(),
            ev == view_events(events@),
            s == count_with(ev.take(i as int), 0),
            d == count_with(ev.take(i as int), 1),
            c == count_with(ev.take(i as int), 2),
        decreases events@.len() - i,
    {
        assert(ev.take(i + 1).drop_last() =~= ev.take(i as int));
        assert(ev.take(i + 1).last() == events@[i as int]@);
        proof {
            lemma_count_with_len(ev.take(i as int), 0);
            lemma_count_with_len(ev.take(i as int), 1);
            lemma_count_with_len(ev.take(i as int), 2);
        }
        if events[i].source_refs.len() > 0 {
            s = s + 1;
        }
        if events[i].evidence_refs.len() > 0 {
            d = d + 1;
        }
        if events[i].cause_refs.len() > 0 {
            c = c + 1;
        }
        i += 1;
    }
    assert(ev.take(events@.len() as int) =~= ev);
    let mut r = u64_to_string(events.len() as u64);
    push_str(&mut r, " events; ");
    push_str(&mut r, u64_to_string(s).as_str());
    push_str(&mut r, " with source refs, ");
    push_str(&mut r, u64_to_string(d).as_str());
    push_str(&mut r, " with evidence refs, ");
    push_str(&mut r, u64_to_string(c).as_str());
    push_str(&mut r, " with cause refs. Missing causality remains explicit.");
    r
}

/// `parts` joined with `sep` between them.
pub open spec fn join(parts: Seq<Seq<char>>, sep: Seq<char>) -> Seq<char>
    decreases parts.len(),
{
    if parts.len() == 0 {
        seq![]
    } else if parts.len() == 1 {
        parts[0]
    } else {
        join(parts.drop_last(), sep) + sep + parts.last()
    }
}

/// `parts.join(sep)`.
pub fn join_strings(parts: &Vec<String>, sep: &str) -> (r: String)
    ensures
        r@ == join(strings_view(parts@), sep@),
{
    let ghost pv = strings_view(parts@);
    let mut r = String::new();
    let mut i: usize = 0;
    while i < parts.len()
        invariant
            i <= parts@.len(),
            pv == strings_view(parts@),
            r@ == join(pv.take(i as int), sep@),
        decreases parts@.len() - i,
    {
        assert(pv.take(i + 1).drop_last() =~= pv.take(i as int));
        assert(pv.take(i + 1).last() == parts@[i as int]@);
        if i > 0 {
            push_str(&mut r, sep);
        } else {
            assert(join(pv.take(0), sep@) =~= seq![]);
        }
        let ghost before = r@;
        push_str(&mut r, parts[i].as_str());
        assert(i == 0 ==> r@ =~= parts@[0]@);
        i += 1;
    }
    assert(pv.take(parts@.len() as int) =~= pv);
    r
}

/// The context a resumed runtime is handed: its state and provider, the current turn,
/// the pending approvals, why it is degraded, and the recent turns, each only when
/// there is one, joined by `; `.
pub open spec fn resume_context_spec(
    state: RuntimeSessionState,
    provider: Seq<char>,
    current_turn: Option<Seq<char>>,
    pending: Seq<Seq<char>>,
    degraded_reason: Option<Seq<char>>,
    recent: Seq<Seq<char>>,
) -> Seq<char> {
    let p1: Seq<Seq<char>> = seq!["runtime_state="@ + runtime_state_label(state), "provider="@ + provider];
    let p2: Seq<Seq<char>> = match current_turn {
        Some(t) => p1.push("current_turn="@ + t),
        None => p1,
    };
    let p3: Seq<Seq<char>> = if pending.len() > 0 {
        p2.push("pending_approvals="@ + join(pending, ","@))
    } else {
        p2
    };
    let p4: Seq<Seq<char>> = match degraded_reason {
        Some(r) => p3.push("degraded_reason="@ + snippet_spec(r, 160)),
        None => p3,
    };
    let p5: Seq<Seq<char>> = if recent.len() > 0 {
        p4.push("recent="@ + join(recent.map_values(|s: Seq<char>| snippet_spec(s, 100)), " | "@))
    } else {
        p4
    };
    join(p5, "; "@)
}

fn push_string(v: &mut Vec<String>, s: String)
    ensures
        strings_view(final(v)@) == strings_view(old(v)@).push(s@),
{
    v.push(s);
    assert(strings_view(v@) =~= strings_view(old(v)@).push(s@));
}

pub fn resume_context(
    runtime: &RuntimeSummary,
    current_turn: Option<&str>,
    pending_approvals: &Vec<String>,
    recent_turn_summaries: &Vec<String>,
) -> (r: String)
    ensures
        r@ == resume_context_spec(
            runtime.state,
            runtime.provider@,
            match current_turn {
                Some(t) => Some(t@),
                None => None,
            },
            strings_view(pending_approvals@),
            opt_view(runtime.degraded_reason),
            strings_view(recent_turn_summaries@),
        ),
{
    let mut parts: Vec<String> = Vec::new();
    push_string(&mut parts, concat2("runtime_state=", runtime_state_label_exec(runtime.state)));
    push_string(&mut parts, concat2("provider=", runtime.provider.as_str()));
    assert(strings_view(parts@) =~= seq![
        "runtime_state="@ + runtime_state_label(runtime.state),
        "provider="@ + runtime.provider@,
    ]);
    if let Some(t) = current_turn {
        push_string(&mut parts, concat2("current_turn=", t));
    }
    if pending_approvals.len() > 0 {
        let joined = join_strings(pending_approvals, ",");
        push_string(&mut parts, concat2("pending_approvals=", joined.as_str()));
    }
    if let Some(reason) = &runtime.degraded_reason {
        push_string(&mut parts, concat2("degraded_reason=", snippet(reason.as_str(), 160).as_str()));
    }
    if recent_turn_summaries.len() > 0 {
        let ghost rv = strings_view(recent_turn_summaries@);
        let mut snippets: Vec<String> = Vec::new();
        let mut i: usize = 0;
        while i < recent_turn_summaries.len()
            invariant
                i <= recent_turn_summaries@.len(),
                rv == strings_view(recent_turn_summaries@),
                strings_view(snippets@) == rv.take(i as int).map_values(|s: Seq<char>| snippet_spec(s, 100)),
            decreases recent_turn_summaries@.len() - i,
        {
            push_string(&mut snippets, snippet(recent_turn_summaries[i].as_str(), 100));
            assert(rv[i as int] == recent_turn_summaries@[i as int]@);
            assert(rv.take(i + 1).map_values(|s: Seq<char>| snippet_spec(s, 100)) =~= rv.take(i as int).map_values(
                |s: Seq<char>| snippet_spec(s, 100),
            ).push(snippet_spec(rv[i as int], 100)));
            i += 1;
        }
        assert(rv.take(recent_turn_summaries@.len() as int) =~= rv);
        let joined = join_strings(&snippets, " | ");
        push_string(&mut parts, concat2("recent=", joined.as_str()));
    }
    join_strings(&parts, "; ")
}


/// Two scopes are the same.
pub fn scope_eq(a: &ScopeRef, b: &ScopeRef) -> (r: bool)
    ensures
        r == (a@ == b@),
{
    match (a, b) {
        (ScopeRef::Runtime { runtime_session_id: x }, ScopeRef::Runtime { runtime_session_id: y }) => str_eq(
            x.as_str(),
            y.as_str(),
        ),
        (ScopeRef::Session { session_thread_id: x }, ScopeRef::Session { session_thread_id: y }) => str_eq(
            x.as_str(),
            y.as_str(),
        ),
        (ScopeRef::Node { node_id: x }, ScopeRef::Node { node_id: y }) => str_eq(x.as_str(), y.as_str()),
        (
            ScopeRef::Placement { project_placement_id: x },
            ScopeRef::Placement { project_placement_id: y },
        ) => str_eq(x.as_str(), y.as_str()),
        (ScopeRef::Unknown { scope: x }, ScopeRef::Unknown { scope: y }) => str_eq(x.as_str(), y.as_str()),
        _ => false,
    }
}

/// Two references are the same.
pub fn ref_eq(a: &CortexRef, b: &CortexRef) -> (r: bool)
    ensures
        r == (a@ == b@),
{
    match (a, b) {
        (CortexRef::Session { session_thread_id: x }, CortexRef::Session { session_thread_id: y }) => str_eq(
            x.as_str(),
            y.as_str(),
        ),
        (CortexRef::Runtime { runtime_session_id: x }, CortexRef::Runtime { runtime_session_id: y }) => str_eq(
            x.as_str(),
            y.as_str(),
        ),
        (CortexRef::Placement { placement_id: x }, CortexRef::Placement { placement_id: y }) => str_eq(
            x.as_str(),
            y.as_str(),
        ),
        (CortexRef::Message { message_id: x }, CortexRef::Message { message_id: y }) => str_eq(
            x.as_str(),
            y.as_str(),
        ),
        (
            CortexRef::Event { event_id: x, scope_ref: sx, seq: qx },
            CortexRef::Event { event_id: y, scope_ref: sy, seq: qy },
        ) => str_eq(x.as_str(), y.as_str()) && scope_eq(sx, sy) && *qx == *qy,
        (CortexRef::Approval { approval_id: x }, CortexRef::Approval { approval_id: y }) => str_eq(
            x.as_str(),
            y.as_str(),
        ),
        (
            CortexRef::Warning { warning_kind: x, command_id: cx },
            CortexRef::Warning { warning_kind: y, command_id: cy },
        ) => str_eq(x.as_str(), y.as_str()) && opt_str_eq(cx, cy),
        _ => false,
    }
}

/// `refs` with each reference kept only where it first occurs.
pub open spec fn dedupe(refs: Seq<RefView>) -> Seq<RefView>
    decreases refs.len(),
{
    if refs.len() == 0 {
        seq![]
    } else {
        let rest = dedupe(refs.drop_last());
        if rest.contains(refs.last()) {
            rest
        } else {
            rest.push(refs.last())
        }
    }
}

pub fn dedupe_refs(refs: Vec<CortexRef>) -> (r: Vec<CortexRef>)
    ensures
        refs_view(r@) == dedupe(refs_view(refs@)),
{
    let ghost rv = refs_view(refs@);
    let mut out: Vec<CortexRef> = Vec::new();
    let mut i: usize = 0;
    while i < refs.len()
        invariant
            i <= refs@.len(),
            rv == refs_view(refs@),
            refs_view(out@) == dedupe(rv.take(i as int)),
        decreases refs@.len() - i,
    {
        let x = &refs[i];
        assert(rv.take(i + 1).drop_last() =~= rv.take(i as int));
        assert(rv.take(i + 1).last() == x@);
        let mut found = false;
        let mut j: usize = 0;
        while j < out.len()
            invariant
                j <= out@.len(),
                found == exists|k: int| 0 <= k < j && out@[k]@ == x@,
            decreases out@.len() - j,
        {
            if ref_eq(&out[j], x) {
                found = true;
            }
            j += 1;
        }
        proof {
            let ov = refs_view(out@);
            if found {
                let k = choose|k: int| 0 <= k < out@.len() && out@[k]@ == x@;
                assert(ov[k] == x@);
            } else {
                assert forall|k: int| 0 <= k < ov.len() implies ov[k] != x@ by {
                    assert(ov[k] == out@[k]@);
                }
            }
        }
        if !found {
            let ghost before = refs_view(out@);
            out.push(crate::protocol::clone_ref(x));
            assert(refs_view(out@) =~= before.push(x@));
        }
        i += 1;
    }
    assert(rv.take(refs@.len() as int) =~= rv);
    out
}

/// The references a client sees for a session: the session, its runtime and placement,
/// the recent messages' references, the five newest events newest first, the pending
/// approvals and the active warnings, each once.
pub open spec fn visible_refs_spec(
    session_thread_id: Seq<char>,
    runtime_session_id: Seq<char>,
    placement_id: Seq<char>,
    events: Seq<EventView>,
    pending: Seq<Seq<char>>,
    warnings: Seq<BadgeView>,
    message_refs: Seq<RefView>,
) -> Seq<RefView> {
    let n = if events.len() < 5 { events.len() as int } else { 5 };
    let newest = Seq::new(
        n as nat,
        |k: int|
            RefView::Event {
                event_id: events[events.len() - 1 - k].event_id,
                scope_ref: events[events.len() - 1 - k].scope_ref,
                seq: events[events.len() - 1 - k].seq,
            },
    );
    dedupe(
        seq![
            RefView::Session { session_thread_id },
            RefView::Runtime { runtime_session_id },
            RefView::Placement { placement_id },
        ] + message_refs + newest + pending.map_values(|a: Seq<char>| RefView::Approval { approval_id: a })
            + warnings.map_values(|w: BadgeView| RefView::Warning { warning_kind: w.kind, command_id: None }),
    )
}

fn push_ref(v: &mut Vec<CortexRef>, r: CortexRef)
    ensures
        refs_view(final(v)@) == refs_view(old(v)@).push(r@),
{
    v.push(r);
    assert(refs_view(v@) =~= refs_view(old(v)@).push(r@));
}

pub fn visible_refs(
    session_thread_id: &str,
    runtime_session_id: &str,
    placement_id: &str,
    events: &Vec<EventEnvelope>,
    pending_approvals: &Vec<String>,
    active_warnings: &Vec<ResourceBadge>,
    recent_message_refs: &Vec<CortexRef>,
) -> (r: Vec<CortexRef>)
    ensures
        refs_view(r@) == visible_refs_spec(
            session_thread_id@,
            runtime_session_id@,
            placement_id@,
            view_events(events@),
            strings_view(pending_approvals@),
            badges_view(active_warnings@),
            refs_view(recent_message_refs@),
        ),
{
    let ghost ev = view_events(events@);
    let mut refs: Vec<CortexRef> = Vec::new();
    push_ref(&mut refs, CortexRef::Session { session_thread_id: string_from(session_thread_id) });
    push_ref(&mut refs, CortexRef::Runtime { runtime_session_id: string_from(runtime_session_id) });
    push_ref(&mut refs, CortexRef::Placement { placement_id: string_from(placement_id) });
    let ghost head = refs_view(refs@);
    let mut i: usize = 0;
    while i < recent_message_refs.len()
        invariant
            i <= recent_message_refs@.len(),
            refs_view(refs@) == head + refs_view(recent_message_refs@).take(i as int),
        decreases recent_message_refs@.len() - i,
    {
        push_ref(&mut refs, crate::protocol::clone_ref(&recent_message_refs[i]));
        assert(refs_view(recent_message_refs@).take(i + 1) =~= refs_view(recent_message_refs@).take(i as int).push(
            recent_message_refs@[i as int]@,
        ));
        i += 1;
    }
    assert(refs_view(recent_message_refs@).take(recent_message_refs@.len() as int) =~= refs_view(recent_message_refs@));
    let ghost after_messages = refs_view(refs@);
    let n: usize = if events.len() < 5 { events.len() } else { 5 };
    let ghost newest = Seq::new(
        n as nat,
        |k: int|
            RefView::Event {
                event_id: ev[ev.len() - 1 - k].event_id,
                scope_ref: ev[ev.len() - 1 - k].scope_ref,
                seq: ev[ev.len() - 1 - k].seq,
            },
    );
    let mut k: usize = 0;
    while k < n
        invariant
            k <= n,
            n <= events@.len(),
            ev == view_events(events@),
            newest == Seq::new(
                n as nat,
                |m: int|
                    RefView::Event {
                        event_id: ev[ev.len() - 1 - m].event_id,
                        scope_ref: ev[ev.len() - 1 - m].scope_ref,
                        seq: ev[ev.len() - 1 - m].seq,
                    },
            ),
            refs_view(refs@) == after_messages + newest.take(k as int),
        decreases n - k,
    {
        let e = &events[events.len() - 1 - k];
        assert(ev[ev.len() - 1 - k] == e@);
        push_ref(
            &mut refs,
            CortexRef::Event { event_id: e.event_id.clone(), scope_ref: clone_scope(&e.scope_ref), seq: e.seq },
        );
        assert(newest.take(k + 1) =~= newest.take(k as int).push(newest[k as int]));
        k += 1;
    }
    assert(newest.take(n as int) =~= newest);
    let ghost after_events = refs_view(refs@);
    let ghost pv = strings_view(pending_approvals@).map_values(|a: Seq<char>| RefView::Approval { approval_id: a });
    let mut j: usize = 0;
    while j < pending_approvals.len()
        invariant
            j <= pending_approvals@.len(),
            pv == strings_view(pending_approvals@).map_values(|a: Seq<char>| RefView::Approval { approval_id: a }),
            refs_view(refs@) == after_events + pv.take(j as int),
        decreases pending_approvals@.len() - j,
    {
        push_ref(&mut refs, CortexRef::Approval { approval_id: pending_approvals[j].clone() });
        assert(pv[j as int] == RefView::Approval { approval_id: pending_approvals@[j as int]@ });
        assert(pv.take(j + 1) =~= pv.take(j as int).push(pv[j as int]));
        j += 1;
    }
    assert(pv.take(pending_approvals@.len() as int) =~= pv);
    let ghost after_pending = refs_view(refs@);
    let ghost wv = badges_view(active_warnings@).map_values(
        |w: BadgeView| RefView::Warning { warning_kind: w.kind, command_id: None },
    );
    let mut w: usize = 0;
    while w < active_warnings.len()
        invariant
            w <= active_warnings@.len(),
            wv == badges_view(active_warnings@).map_values(
                |b: BadgeView| RefView::Warning { warning_kind: b.kind, command_id: None },
            ),
            refs_view(refs@) == after_pending + wv.take(w as int),
        decreases active_warnings@.len() - w,
    {
        push_ref(
            &mut refs,
            CortexRef::Warning { warning_kind: active_warnings[w].kind.clone(), command_id: None },
        );
        assert(wv[w as int] == RefView::Warning { warning_kind: active_warnings@[w as int].kind@, command_id: None });
        assert(wv.take(w + 1) =~= wv.take(w as int).push(wv[w as int]));
        w += 1;
    }
    assert(wv.take(active_warnings@.len() as int) =~= wv);
    assert(refs_view(refs@) =~= head + refs_view(recent_message_refs@) + newest + pv + wv);
    assert(head =~= seq![
        RefView::Session { session_thread_id: session_thread_id@ },
        RefView::Runtime { runtime_session_id: runtime_session_id@ },
        RefView::Placement { placement_id: placement_id@ },
    ]);
    let ghost spec_n: int = if ev.len() < 5 { ev.len() as int } else { 5 };
    assert(spec_n == n);
    dedupe_refs(refs)
}

/// The resume reference that a runtime event records, for the control plane to keep:
/// its `provider_resume_ref` when that is not null, else one made of its
/// `provider_session_id` and `resume_cursor`, each trimmed and shortened to a 512
/// character excerpt; nothing when it has neither.
pub open spec fn event_resume_ref_spec(payload: JsonView) -> Option<JsonView> {
    match view_get(payload, "provider_resume_ref"@) {
        Some(v) => if v != JsonView::Null {
            Some(v)
        } else {
            built_resume_ref(payload)
        },
        None => built_resume_ref(payload),
    }
}

pub open spec fn excerpt_member(payload: JsonView, key: Seq<char>) -> Option<Seq<char>> {
    match str_member(payload, key) {
        Some(s) => if trim(s).len() > 0 {
            Some(snippet_spec(trim(s), 512))
        } else {
            None
        },
        None => None,
    }
}

pub open spec fn built_resume_ref(payload: JsonView) -> Option<JsonView> {
    let a = excerpt_member(payload, "provider_session_id"@);
    let b = excerpt_member(payload, "resume_cursor"@);
    if a is None && b is None {
        None
    } else {
        Some(resume_ref_json((a, b)))
    }
}

fn excerpt_member_exec(payload: &JsonValue, key: &str) -> (r: Option<String>)
    ensures
        opt_view(r) == excerpt_member(payload@, key@),
{
    match json_get_str(payload, key) {
        Some(s) => {
            let t = crate::text::trim_str(s);
            if t.as_str().is_empty() {
                None
            } else {
                Some(snippet(t.as_str(), 512))
            }
        },
        None => None,
    }
}

pub fn event_provider_resume_ref(event: &EventEnvelope) -> (r: Option<JsonValue>)
    ensures
        match r {
            Some(x) => event_resume_ref_spec(event@.payload) == Some(x@),
            None => event_resume_ref_spec(event@.payload) is None,
        },
{
    if let Some(v) = json_get(&event.payload, "provider_resume_ref") {
        if !matches!(v, JsonValue::Null) {
            return Some(clone_json(v));
        }
    }
    let a = excerpt_member_exec(&event.payload, "provider_session_id");
    let b = excerpt_member_exec(&event.payload, "resume_cursor");
    if a.is_none() && b.is_none() {
        return None;
    }
    let r = crate::node_state::ProviderResumeRef { provider_session_id: a, resume_cursor: b };
    Some(crate::dispatch::provider_resume_ref_json(&r))
}


/// A node of a session's artifact tree: what it is labelled, what it stands for, and
/// the references and nodes under it.
pub struct ArtifactTreeNode {
    pub artifact_id: String,
    pub label: String,
    pub primary_ref: CortexRef,
    pub source_refs: Vec<CortexRef>,
    pub evidence_refs: Vec<CortexRef>,
    pub cause_refs: Vec<CortexRef>,
    pub children: Vec<ArtifactTreeNode>,
}

/// The artifact tree of a session, generated at a time in milliseconds since the epoch.
pub struct ArtifactTree {
    pub session_thread_id: String,
    pub root: ArtifactTreeNode,
    pub generated_at: i64,
}

/// `n` is the leaf that stands for message `m`: labelled by its role, referring to the
/// message, with the message's source references among `events`.
pub open spec fn message_node(n: ArtifactTreeNode, m: MessageRecord, events: Seq<EventView>) -> bool {
    &&& n.label@ == role_label(m.role) + " message"@
    &&& n.primary_ref@ == (RefView::Message { message_id: m.message_id@ })
    &&& refs_view(n.source_refs@) == message_source_refs_spec(
        opt_view(m.source_event_id),
        m.session_thread_id@,
        events,
    )
    &&& n.evidence_refs@.len() == 0
    &&& n.cause_refs@.len() == 0
    &&& n.children@.len() == 0
}

/// `n` is the leaf that stands for event `e`: its label and primary reference, and the
/// event's own source, evidence and cause references.
pub open spec fn event_node(n: ArtifactTreeNode, e: EventView) -> bool {
    &&& n.label@ == artifact_label_spec(e)
    &&& n.primary_ref@ == primary_ref_spec(e)
    &&& refs_view(n.source_refs@) == e.source_refs
    &&& refs_view(n.evidence_refs@) == e.evidence_refs
    &&& refs_view(n.cause_refs@) == e.cause_refs
    &&& n.children@.len() == 0
}

/// The artifact tree of a session: a root for the session under its title, with a leaf
/// for each message, then a leaf for each event, in their order. Node ids are fresh and
/// the time is the clock's; nothing is stated of them.
pub fn build_artifact_tree(
    session_thread_id: &str,
    title: &str,
    messages: &Vec<MessageRecord>,
    events: &Vec<EventEnvelope>,
) -> (r: ArtifactTree)
    ensures
        r.session_thread_id@ == session_thread_id@,
        r.root.label@ == title@,
        r.root.primary_ref@ == (RefView::Session { session_thread_id: session_thread_id@ }),
        r.root.source_refs@.len() == 0,
        r.root.evidence_refs@.len() == 0,
        r.root.cause_refs@.len() == 0,
        r.root.children@.len() == messages@.len() + events@.len(),
        forall|i: int|
            0 <= i < messages@.len() ==> message_node(
                #[trigger] r.root.children@[i],
                messages@[i],
                view_events(events@),
            ),
        forall|j: int|
            0 <= j < events@.len() ==> event_node(
                #[trigger] r.root.children@[messages@.len() + j],
                events@[j]@,
            ),
{
    let mut children: Vec<ArtifactTreeNode> = Vec::new();
    let mut i: usize = 0;
    while i < messages.len()
        invariant
            i <= messages@.len(),
            children@.len() == i,
            forall|k: int| 0 <= k < i ==> message_node(#[trigger] children@[k], messages@[k], view_events(events@)),
        decreases messages@.len() - i,
    {
        let m = &messages[i];
        let node = ArtifactTreeNode {
            artifact_id: crate::system::new_uuid(),
            label: concat2(message_role_label(m.role), " message"),
            primary_ref: CortexRef::Message { message_id: m.message_id.clone() },
            source_refs: message_source_refs(m, events),
            evidence_refs: Vec::new(),
            cause_refs: Vec::new(),
            children: Vec::new(),
        };
        children.push(node);
        i += 1;
    }
    let n = messages.len();
    let mut j: usize = 0;
    while j < events.len()
        invariant
            j <= events@.len(),
            n == messages@.len(),
            children@.len() == n + j,
            forall|k: int| 0 <= k < n ==> message_node(#[trigger] children@[k], messages@[k], view_events(events@)),
            forall|k: int| 0 <= k < j ==> event_node(#[trigger] children@[n + k], events@[k]@),
        decreases events@.len() - j,
    {
        let e = &events[j];
        let node = ArtifactTreeNode {
            artifact_id: crate::system::new_uuid(),
            label: artifact_label_for_event(e),
            primary_ref: primary_ref_for_event(e),
            source_refs: crate::protocol::clone_refs(&e.source_refs),
            evidence_refs: crate::protocol::clone_refs(&e.evidence_refs),
            cause_refs: crate::protocol::clone_refs(&e.cause_refs),
            children: Vec::new(),
        };
        let ghost before = children@;
        children.push(node);
        assert forall|k: int| 0 <= k < n implies message_node(#[trigger] children@[k], messages@[k], view_events(events@)) by {
            assert(children@[k] == before[k]);
        }
        assert forall|k: int| 0 <= k < j + 1 implies event_node(#[trigger] children@[n + k], events@[k]@) by {
            if k < j {
                assert(children@[n + k] == before[n + k]);
            }
        }
        j += 1;
    }
    let root = ArtifactTreeNode {
        artifact_id: crate::system::new_uuid(),
        label: string_from(title),
        primary_ref: CortexRef::Session { session_thread_id: string_from(session_thread_id) },
        source_refs: Vec::new(),
        evidence_refs: Vec::new(),
        cause_refs: Vec::new(),
        children,
    };
    ArtifactTree {
        session_thread_id: string_from(session_thread_id),
        root,
        generated_at: crate::system::now_millis(),
    }
}

} // verus!
