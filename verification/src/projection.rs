//! What the control plane reads from a session's event history: the current turn,
//! the pending approvals, and the states that each event moves a runtime, a session
//! and a turn to.
use vstd::prelude::*;

use crate::protocol::{
    json_get_str, str_member, ActorRef, ActorView, EventEnvelope, EventView, ScopeRef, ScopeView,
};
use crate::states::{EventKind, MessageRole, RuntimeSessionState, SessionThreadState, TurnState};
use crate::text::{
    concat2, i64_to_chars, lemma_contains_after_push, lemma_no_duplicates_after_push, parse_i64,
    parse_i64_spec, push_str, signed_decimal, str_eq, string_from, string_of, strings_view,
};

verus! {

/// The approval an event is about: its payload's non-empty `approval_id` string.
pub open spec fn approval_id_of(e: EventView) -> Option<Seq<char>> {
    match str_member(e.payload, "approval_id"@) {
        Some(id) => if id.len() > 0 {
            Some(id)
        } else {
            None
        },
        None => None,
    }
}

pub fn event_approval_id(event: &EventEnvelope) -> (r: Option<String>)
    ensures
        match r {
            Some(id) => approval_id_of(event@) == Some(id@),
            None => approval_id_of(event@) is None,
        },
{
    match json_get_str(&event.payload, "approval_id") {
        Some(id) => {
            if id.unicode_len() > 0 {
                Some(string_from(id))
            } else {
                None
            }
        },
        None => None,
    }
}

/// `items` without any occurrence of `x`, the rest in order.
pub open spec fn without(items: Seq<Seq<char>>, x: Seq<char>) -> Seq<Seq<char>>
    decreases items.len(),
{
    if items.len() == 0 {
        seq![]
    } else {
        let rest = without(items.drop_last(), x);
        if items.last() == x {
            rest
        } else {
            rest.push(items.last())
        }
    }
}

pub proof fn lemma_without(items: Seq<Seq<char>>, x: Seq<char>)
    ensures
        !without(items, x).contains(x),
        forall|y: Seq<char>| y != x ==> (#[trigger] without(items, x).contains(y) <==> items.contains(y)),
        items.no_duplicates() ==> without(items, x).no_duplicates(),
    decreases items.len(),
{
    if items.len() > 0 {
        let d = items.drop_last();
        let l = items.last();
        let rest = without(d, x);
        lemma_without(d, x);
        assert(items == d.push(l));
        lemma_contains_after_push(rest, l, x);
        assert forall|y: Seq<char>| y != x implies (#[trigger] without(items, x).contains(y)
            <==> items.contains(y)) by {
            lemma_contains_after_push(rest, l, y);
            lemma_contains_after_push(d, l, y);
            assert(without(d, x).contains(y) <==> d.contains(y));
        }
        if items.no_duplicates() {
            lemma_no_duplicates_after_push(d, l);
            if l != x {
                lemma_no_duplicates_after_push(rest, l);
                assert(without(d, x).contains(l) <==> d.contains(l));
            }
        }
    }
}

/// Removes every occurrence of `x` from `items`.
pub fn remove_all(items: &Vec<String>, x: &str) -> (r: Vec<String>)
    ensures
        strings_view(r@) == without(strings_view(items@), x@),
{
    let mut out: Vec<String> = Vec::new();
    let mut i: usize = 0;
    while i < items.len()
        invariant
            i <= items@.len(),
            strings_view(out@) == without(strings_view(items@.take(i as int)), x@),
        decreases items@.len() - i,
    {
        let ghost prev = strings_view(items@.take(i as int));
        assert(strings_view(items@.take(i + 1)).drop_last() =~= prev);
        assert(strings_view(items@.take(i + 1)).last() == items@[i as int]@);
        if !str_eq(items[i].as_str(), x) {
            out.push(items[i].clone());
            assert(strings_view(out@) =~= without(prev, x@).push(items@[i as int]@));
        }
        i += 1;
    }
    assert(items@.take(items@.len() as int) =~= items@);
    out
}

/// The approvals still waiting after `events`, oldest request first: a request adds its
/// approval at the end (moving it there when it was already waiting), a resolution
/// removes it.
pub open spec fn pending_after(events: Seq<EventView>) -> Seq<Seq<char>>
    decreases events.len(),
{
    if events.len() == 0 {
        seq![]
    } else {
        let before = pending_after(events.drop_last());
        let e = events.last();
        match approval_id_of(e) {
            Some(id) => if e.kind == EventKind::ApprovalRequested {
                without(before, id).push(id)
            } else if e.kind == EventKind::ApprovalResolved {
                without(before, id)
            } else {
                before
            },
            None => before,
        }
    }
}

/// The views of a list of events.
pub open spec fn view_events(events: Seq<EventEnvelope>) -> Seq<EventView> {
    events.map_values(|e: EventEnvelope| e@)
}

/// The approvals that are requested and not yet resolved in `events`.
pub fn pending_approvals(events: &Vec<EventEnvelope>) -> (r: Vec<String>)
    ensures
        strings_view(r@) == pending_after(view_events(events@)),
{
    let mut pending: Vec<String> = Vec::new();
    let mut i: usize = 0;
    while i < events.len()
        invariant
            i <= events@.len(),
            strings_view(pending@) == pending_after(view_events(events@.take(i as int))),
        decreases events@.len() - i,
    {
        let event = &events[i];
        assert(view_events(events@.take(i + 1)).drop_last() =~= view_events(events@.take(i as int)));
        assert(view_events(events@.take(i + 1)).last() == event@);
        if event.kind == EventKind::ApprovalRequested || event.kind == EventKind::ApprovalResolved {
            if let Some(id) = event_approval_id(event) {
                let mut next = remove_all(&pending, id.as_str());
                if event.kind == EventKind::ApprovalRequested {
                    next.push(id);
                    assert(strings_view(next@) =~= without(strings_view(pending@), id@).push(id@));
                }
                pending = next;
            }
        }
        i += 1;
    }
    assert(events@.take(events@.len() as int) =~= events@);
    pending
}

/// A request leaves its approval pending, and a later resolution of the same approval
/// clears it; the pending list never holds an approval twice.
pub proof fn lemma_pending_approvals_follow_requests(events: Seq<EventView>, e: EventView)
    ensures
        pending_after(events).no_duplicates(),
        (e.kind == EventKind::ApprovalRequested && approval_id_of(e) is Some) ==> pending_after(
            events.push(e),
        ).contains(approval_id_of(e)->0),
        (e.kind == EventKind::ApprovalResolved && approval_id_of(e) is Some) ==> !pending_after(
            events.push(e),
        ).contains(approval_id_of(e)->0),
    decreases events.len(),
{
    lemma_pending_no_duplicates(events);
    assert(events.push(e).drop_last() =~= events);
    if let Some(id) = approval_id_of(e) {
        lemma_without(pending_after(events), id);
        if e.kind == EventKind::ApprovalRequested {
            let p = without(pending_after(events), id).push(id);
            assert(p[p.len() - 1] == id);
        }
    }
}

proof fn lemma_pending_no_duplicates(events: Seq<EventView>)
    ensures
        pending_after(events).no_duplicates(),
    decreases events.len(),
{
    if events.len() > 0 {
        lemma_pending_no_duplicates(events.drop_last());
        let before = pending_after(events.drop_last());
        if let Some(id) = approval_id_of(events.last()) {
            lemma_without(before, id);
            lemma_no_duplicates_after_push(without(before, id), id);
        }
    }
}

} // verus!

verus! {

/// The turns still open after `events`, the most recently started last: a start adds
/// its turn at the end, a completion, interruption or runtime error of a turn removes it.
pub open spec fn open_turns_after(events: Seq<EventView>) -> Seq<Seq<char>>
    decreases events.len(),
{
    if events.len() == 0 {
        seq![]
    } else {
        let before = open_turns_after(events.drop_last());
        let e = events.last();
        match e.turn_id {
            Some(t) => if e.kind == EventKind::TurnStarted {
                without(before, t).push(t)
            } else if e.kind == EventKind::TurnCompleted || e.kind == EventKind::TurnInterrupted
                || e.kind == EventKind::RuntimeError {
                without(before, t)
            } else {
                before
            },
            None => before,
        }
    }
}

/// The most recently started turn that has not ended.
pub open spec fn current_turn_spec(events: Seq<EventView>) -> Option<Seq<char>> {
    let open = open_turns_after(events);
    if open.len() == 0 {
        None
    } else {
        Some(open.last())
    }
}

/// The turn that the session is working on, if any.
pub fn current_turn(events: &Vec<EventEnvelope>) -> (r: Option<String>)
    ensures
        match r {
            Some(t) => current_turn_spec(view_events(events@)) == Some(t@),
            None => current_turn_spec(view_events(events@)) is None,
        },
{
    let mut active: Vec<String> = Vec::new();
    let mut i: usize = 0;
    while i < events.len()
        invariant
            i <= events@.len(),
            strings_view(active@) == open_turns_after(view_events(events@.take(i as int))),
        decreases events@.len() - i,
    {
        let event = &events[i];
        assert(view_events(events@.take(i + 1)).drop_last() =~= view_events(events@.take(i as int)));
        assert(view_events(events@.take(i + 1)).last() == event@);
        if let Some(turn_id) = &event.turn_id {
            if event.kind == EventKind::TurnStarted {
                let mut next = remove_all(&active, turn_id.as_str());
                next.push(turn_id.clone());
                assert(strings_view(next@) =~= without(strings_view(active@), turn_id@).push(turn_id@));
                active = next;
            } else if event.kind == EventKind::TurnCompleted || event.kind == EventKind::TurnInterrupted
                || event.kind == EventKind::RuntimeError {
                active = remove_all(&active, turn_id.as_str());
            }
        }
        i += 1;
    }
    assert(events@.take(events@.len() as int) =~= events@);
    if active.len() == 0 {
        None
    } else {
        let last = active.len() - 1;
        assert(strings_view(active@).last() == active@[last as int]@);
        Some(active[last].clone())
    }
}

/// The state a turn moves to on an event of `kind`.
pub open spec fn turn_state_spec(kind: EventKind) -> Option<TurnState> {
    match kind {
        EventKind::TurnStarted => Some(TurnState::Running),
        EventKind::TurnCompleted => Some(TurnState::Completed),
        EventKind::TurnInterrupted => Some(TurnState::Interrupted),
        EventKind::ApprovalRequested => Some(TurnState::BlockedOnApproval),
        EventKind::RuntimeError => Some(TurnState::Failed),
        _ => None,
    }
}

pub fn turn_state_for_event(kind: EventKind) -> (r: Option<TurnState>)
    ensures
        (r == Some(TurnState::Completed)) == (kind == EventKind::TurnCompleted),
        (r == Some(TurnState::Interrupted)) == (kind == EventKind::TurnInterrupted),
        r == turn_state_spec(kind),
{
    match kind {
        EventKind::TurnStarted => Some(TurnState::Running),
        EventKind::TurnCompleted => Some(TurnState::Completed),
        EventKind::TurnInterrupted => Some(TurnState::Interrupted),
        EventKind::ApprovalRequested => Some(TurnState::BlockedOnApproval),
        EventKind::RuntimeError => Some(TurnState::Failed),
        _ => None,
    }
}

/// Each turn event moves the turn to the state it names, and no other event does: a
/// start makes it run, a completion completes it, an interruption interrupts it, an
/// approval request blocks it and a runtime error fails it; no event sends a turn
/// back to created or dispatched. Hence an interrupted turn is never recorded as
/// completed, and two different events never lead to the same state.
pub proof fn lemma_turn_events_name_their_state(kind: EventKind)
    ensures
        (turn_state_spec(kind) == Some(TurnState::Running)) == (kind == EventKind::TurnStarted),
        (turn_state_spec(kind) == Some(TurnState::Completed)) == (kind == EventKind::TurnCompleted),
        (turn_state_spec(kind) == Some(TurnState::Interrupted)) == (kind == EventKind::TurnInterrupted),
        (turn_state_spec(kind) == Some(TurnState::BlockedOnApproval)) == (kind
            == EventKind::ApprovalRequested),
        (turn_state_spec(kind) == Some(TurnState::Failed)) == (kind == EventKind::RuntimeError),
        turn_state_spec(kind) != Some(TurnState::Created),
        turn_state_spec(kind) != Some(TurnState::Dispatched),
        forall|other: EventKind|
            #[trigger] turn_state_spec(other) == turn_state_spec(kind) && turn_state_spec(kind) is Some
                ==> other == kind,
{
}

/// A turn in this state has finished.
pub open spec fn turn_finished(state: TurnState) -> bool {
    state == TurnState::Completed || state == TurnState::Interrupted || state == TurnState::Failed
}

/// The change an event makes to the turn it names.
pub struct TurnUpdate {
    pub turn_id: String,
    pub state: TurnState,
    /// The turn finished with this event.
    pub completes: bool,
    /// The approval the turn now waits on.
    pub blocked_approval_id: Option<String>,
}

/// How an event changes its turn: nothing without a turn id or for a kind that does not
/// move turns; else the new state, whether the turn finished, and the approval it waits
/// on when it is blocked.
pub fn turn_update_for_event(event: &EventEnvelope) -> (r: Option<TurnUpdate>)
    ensures
        match r {
            None => event.turn_id is None || turn_state_spec(event.kind) is None,
            Some(u) => {
                &&& event@.turn_id == Some(u.turn_id@)
                &&& turn_state_spec(event.kind) == Some(u.state)
                &&& u.completes == turn_finished(u.state)
                &&& crate::protocol::opt_view(u.blocked_approval_id) == if u.state
                    == TurnState::BlockedOnApproval {
                    approval_id_of(event@)
                } else {
                    None
                }
            },
        },
{
    let turn_id = match &event.turn_id {
        Some(t) => t,
        None => return None,
    };
    let state = match turn_state_for_event(event.kind) {
        Some(s) => s,
        None => return None,
    };
    let completes = state == TurnState::Completed || state == TurnState::Interrupted || state
        == TurnState::Failed;
    let blocked_approval_id = if state == TurnState::BlockedOnApproval {
        event_approval_id(event)
    } else {
        None
    };
    Some(TurnUpdate { turn_id: turn_id.clone(), state, completes, blocked_approval_id })
}

/// The state the control plane records for a runtime on an event of `kind`.
pub open spec fn runtime_projection_spec(kind: EventKind) -> Option<RuntimeSessionState> {
    match kind {
        EventKind::RuntimeStarting => Some(RuntimeSessionState::Starting),
        EventKind::RuntimeReady => Some(RuntimeSessionState::Ready),
        EventKind::RuntimeResuming => Some(RuntimeSessionState::Resuming),
        EventKind::RuntimeRunning => Some(RuntimeSessionState::Running),
        EventKind::RuntimeBlocked => Some(RuntimeSessionState::Blocked),
        EventKind::RuntimeExpired => Some(RuntimeSessionState::Expired),
        EventKind::RuntimeStopped => Some(RuntimeSessionState::Stopped),
        EventKind::RuntimeError => Some(RuntimeSessionState::Error),
        EventKind::TurnInterrupted => Some(RuntimeSessionState::Interrupted),
        EventKind::ApprovalRequested => Some(RuntimeSessionState::Blocked),
        _ => None,
    }
}

pub fn runtime_projection_for_event(kind: EventKind) -> (r: Option<RuntimeSessionState>)
    ensures
        r == runtime_projection_spec(kind),
{
    match kind {
        EventKind::RuntimeStarting => Some(RuntimeSessionState::Starting),
        EventKind::RuntimeReady => Some(RuntimeSessionState::Ready),
        EventKind::RuntimeResuming => Some(RuntimeSessionState::Resuming),
        EventKind::RuntimeRunning => Some(RuntimeSessionState::Running),
        EventKind::RuntimeBlocked => Some(RuntimeSessionState::Blocked),
        EventKind::RuntimeExpired => Some(RuntimeSessionState::Expired),
        EventKind::RuntimeStopped => Some(RuntimeSessionState::Stopped),
        EventKind::RuntimeError => Some(RuntimeSessionState::Error),
        EventKind::TurnInterrupted => Some(RuntimeSessionState::Interrupted),
        EventKind::ApprovalRequested => Some(RuntimeSessionState::Blocked),
        _ => None,
    }
}

/// Entering these runtime states clears a recorded degradation.
pub open spec fn clears_degradation(state: RuntimeSessionState) -> bool {
    state == RuntimeSessionState::Starting || state == RuntimeSessionState::Ready || state
        == RuntimeSessionState::Running || state == RuntimeSessionState::Resuming
}

pub fn runtime_state_clears_degraded_reason(state: RuntimeSessionState) -> (b: bool)
    ensures
        b == clears_degradation(state),
{
    match state {
        RuntimeSessionState::Starting
        | RuntimeSessionState::Ready
        | RuntimeSessionState::Running
        | RuntimeSessionState::Resuming => true,
        _ => false,
    }
}

/// The session state an event of `kind` asks for.
pub open spec fn session_target_spec(kind: EventKind) -> Option<SessionThreadState> {
    match kind {
        EventKind::RuntimeStarting
        | EventKind::RuntimeReady
        | EventKind::RuntimeResuming
        | EventKind::RuntimeRunning
        | EventKind::RuntimeBlocked
        | EventKind::TurnInterrupted
        | EventKind::ApprovalRequested => Some(SessionThreadState::Active),
        EventKind::RuntimeExpired | EventKind::RuntimeError => Some(SessionThreadState::Degraded),
        EventKind::RuntimeStopped => Some(SessionThreadState::Stopped),
        _ => None,
    }
}

/// The state a session takes on an event of `kind`: a detached session stays detached
/// when the event would make it active.
pub open spec fn session_state_after_spec(
    current: SessionThreadState,
    kind: EventKind,
) -> SessionThreadState {
    match session_target_spec(kind) {
        Some(target) => if target == SessionThreadState::Active && current
            == SessionThreadState::Detached {
            current
        } else {
            target
        },
        None => current,
    }
}

/// The state a session records after an event of `kind`.
pub fn session_state_after_event(current: SessionThreadState, kind: EventKind) -> (r:
    SessionThreadState)
    ensures
        r == session_state_after_spec(current, kind),
{
    let target = match kind {
        EventKind::RuntimeStarting
        | EventKind::RuntimeReady
        | EventKind::RuntimeResuming
        | EventKind::RuntimeRunning
        | EventKind::RuntimeBlocked
        | EventKind::TurnInterrupted
        | EventKind::ApprovalRequested => SessionThreadState::Active,
        EventKind::RuntimeExpired | EventKind::RuntimeError => SessionThreadState::Degraded,
        EventKind::RuntimeStopped => SessionThreadState::Stopped,
        _ => {
            return current;
        },
    };
    if target == SessionThreadState::Active && current == SessionThreadState::Detached {
        current
    } else {
        target
    }
}

/// A detached session stays detached until a user attaches it or the runtime stops,
/// fails or expires: no other event reattaches it.
pub proof fn lemma_detached_session_stays_detached(kind: EventKind)
    ensures
        session_state_after_spec(SessionThreadState::Detached, kind) == SessionThreadState::Detached
            || session_target_spec(kind) == Some(session_state_after_spec(
            SessionThreadState::Detached,
            kind,
        )) && session_state_after_spec(SessionThreadState::Detached, kind)
            != SessionThreadState::Active,
{
}

} // verus!

verus! {

/// The key under which the events of a scope are numbered: the scope's kind, a colon
/// and its id.
pub open spec fn scope_key_spec(scope: ScopeView) -> Seq<char> {
    match scope {
        ScopeView::Runtime { runtime_session_id } => "runtime:"@ + runtime_session_id,
        ScopeView::Session { session_thread_id } => "session:"@ + session_thread_id,
        ScopeView::Node { node_id } => "node:"@ + node_id,
        ScopeView::Placement { project_placement_id } => "placement:"@ + project_placement_id,
        ScopeView::Unknown { scope } => "unknown:"@ + scope,
    }
}

pub fn scope_key(scope: &ScopeRef) -> (r: String)
    ensures
        r@ == scope_key_spec(scope@),
{
    match scope {
        ScopeRef::Runtime { runtime_session_id } => concat2("runtime:", runtime_session_id.as_str()),
        ScopeRef::Session { session_thread_id } => concat2("session:", session_thread_id.as_str()),
        ScopeRef::Node { node_id } => concat2("node:", node_id.as_str()),
        ScopeRef::Placement { project_placement_id } => concat2(
            "placement:",
            project_placement_id.as_str(),
        ),
        ScopeRef::Unknown { scope } => concat2("unknown:", scope.as_str()),
    }
}

/// How the control plane files an actor: its key, its kind and a display name.
pub open spec fn actor_identity_spec(actor: ActorView) -> (Seq<char>, Seq<char>, Seq<char>) {
    match actor {
        ActorView::LocalUser { actor_id } => (
            match actor_id {
                Some(id) => "local_user:"@ + id,
                None => "local_user"@,
            },
            "local_user"@,
            "Local user"@,
        ),
        ActorView::System => ("system"@, "system"@, "System"@),
        ActorView::Node { node_id } => ("node:"@ + node_id, "node"@, "Node "@ + node_id),
        ActorView::Provider { provider } => (
            "provider:"@ + provider,
            "provider"@,
            "Provider "@ + provider,
        ),
        ActorView::Unknown => ("unknown"@, "unknown"@, "Unknown"@),
    }
}

pub fn actor_identity(actor: &ActorRef) -> (r: (String, &'static str, String))
    ensures
        (r.0@, r.1@, r.2@) == actor_identity_spec(actor@),
{
    match actor {
        ActorRef::LocalUser { actor_id } => {
            let key = match actor_id {
                Some(id) => concat2("local_user:", id.as_str()),
                None => string_from("local_user"),
            };
            (key, "local_user", string_from("Local user"))
        },
        ActorRef::System => (string_from("system"), "system", string_from("System")),
        ActorRef::Node { node_id } => (
            concat2("node:", node_id.as_str()),
            "node",
            concat2("Node ", node_id.as_str()),
        ),
        ActorRef::Provider { provider } => (
            concat2("provider:", provider.as_str()),
            "provider",
            concat2("Provider ", provider.as_str()),
        ),
        ActorRef::Unknown => (string_from("unknown"), "unknown", string_from("Unknown")),
    }
}

/// What the control plane does with an incoming node event.
pub enum EventAdmission {
    /// An event with this id is already stored.
    Duplicate,
    /// Another event already holds this sequence number in the scope.
    Conflict { conflict_event_id: String },
    /// The event is stored; `stream_gap` holds the expected sequence number when
    /// the event skipped ahead of it.
    Accept { stream_gap: Option<i64> },
}

/// Decides on an incoming event from what the store holds: whether its id is known,
/// which event holds its sequence number in its scope, and the highest sequence number
/// of the scope.
pub fn admit_event(
    seq: i64,
    already_stored: bool,
    seq_holder: Option<String>,
    max_seq: Option<i64>,
) -> (r: EventAdmission)
    requires
        !already_stored && seq_holder is None ==> (max_seq matches Some(m) ==> m < i64::MAX),
    ensures
        already_stored ==> r is Duplicate,
        !already_stored && seq_holder is Some ==> (r matches EventAdmission::Conflict {
            conflict_event_id,
        } && conflict_event_id@ == seq_holder->0@),
        !already_stored && seq_holder is None ==> (r matches EventAdmission::Accept { stream_gap }
            && stream_gap == ({
            let expected = match max_seq {
                Some(m) => m + 1,
                None => 1,
            };
            if seq > expected {
                Some(expected as i64)
            } else {
                None
            }
        })),
{
    if already_stored {
        return EventAdmission::Duplicate;
    }
    if let Some(conflict) = seq_holder {
        return EventAdmission::Conflict { conflict_event_id: conflict };
    }
    let expected: i64 = match max_seq {
        Some(m) => m + 1,
        None => 1,
    };
    let stream_gap = if seq > expected {
        Some(expected)
    } else {
        None
    };
    EventAdmission::Accept { stream_gap }
}

/// The reason recorded on a runtime whose event stream skipped numbers.
pub open spec fn stream_gap_reason_spec(expected: int, received: int) -> Seq<char> {
    "event sequence gap: expected "@ + signed_decimal(expected) + ", received "@ + signed_decimal(
        received,
    )
}

pub fn stream_gap_reason(expected: i64, received: i64) -> (r: String)
    ensures
        r@ == stream_gap_reason_spec(expected as int, received as int),
{
    let mut s = string_from("event sequence gap: expected ");
    let e = i64_to_chars(expected);
    push_str(&mut s, string_of(&e).as_str());
    push_str(&mut s, ", received ");
    let r = i64_to_chars(received);
    push_str(&mut s, string_of(&r).as_str());
    s
}

/// The message a session records for an event: a runtime error, a completed provider
/// message, an approval request or an approval resolution, with its text taken from the
/// payload or a fixed default.
pub open spec fn event_message_spec(e: EventView) -> Option<(MessageRole, Seq<char>)> {
    let text = |key: Seq<char>, default: Seq<char>|
        match str_member(e.payload, key) {
            Some(s) => s,
            None => default,
        };
    match e.kind {
        EventKind::RuntimeError => Some((MessageRole::Runtime, text("message"@, "Runtime error"@))),
        EventKind::ProviderMessageCompleted => Some(
            (MessageRole::Assistant, text("content"@, "Provider completed a message"@)),
        ),
        EventKind::ApprovalRequested => Some(
            (MessageRole::Approval, text("prompt"@, "Approval requested"@)),
        ),
        EventKind::ApprovalResolved => Some(
            (MessageRole::Approval, text("message"@, "Approval resolved"@)),
        ),
        _ => None,
    }
}

fn payload_text(event: &EventEnvelope, key: &str, default: &str) -> (r: String)
    ensures
        r@ == match str_member(event@.payload, key@) {
            Some(s) => s,
            None => default@,
        },
{
    match json_get_str(&event.payload, key) {
        Some(s) => string_from(s),
        None => string_from(default),
    }
}

/// The role and text of the message that an event adds to its session.
pub fn event_message(event: &EventEnvelope) -> (r: Option<(MessageRole, String)>)
    ensures
        match r {
            Some((role, text)) => event_message_spec(event@) == Some((role, text@)),
            None => event_message_spec(event@) is None,
        },
{
    match event.kind {
        EventKind::RuntimeError => Some(
            (MessageRole::Runtime, payload_text(event, "message", "Runtime error")),
        ),
        EventKind::ProviderMessageCompleted => Some(
            (MessageRole::Assistant, payload_text(event, "content", "Provider completed a message")),
        ),
        EventKind::ApprovalRequested => Some(
            (MessageRole::Approval, payload_text(event, "prompt", "Approval requested")),
        ),
        EventKind::ApprovalResolved => Some(
            (MessageRole::Approval, payload_text(event, "message", "Approval resolved")),
        ),
        _ => None,
    }
}

/// An event that a live stream of session `session_id` passes on after `after_seq`.
pub open spec fn streams_after(e: EventView, session_id: Seq<char>, after_seq: int) -> bool {
    e.session_thread_id == Some(session_id) && e.seq > after_seq
}

pub fn event_matches_session_after_seq(
    event: &EventEnvelope,
    session_id: &str,
    after_seq: i64,
) -> (b: bool)
    ensures
        b == streams_after(event@, session_id@, after_seq as int),
{
    match &event.session_thread_id {
        Some(id) => str_eq(id.as_str(), session_id) && event.seq > after_seq,
        None => false,
    }
}

/// The sequence number after which a resumed stream starts: the query's cursor, else a
/// non-negative `Last-Event-ID`, else zero.
pub open spec fn resume_after_spec(query_after_seq: Option<i64>, last_event_id: Option<Seq<char>>) -> i64 {
    match query_after_seq {
        Some(q) => q,
        None => match last_event_id {
            Some(v) => match parse_i64_spec(v) {
                Some(n) => if n >= 0 {
                    n
                } else {
                    0
                },
                None => 0,
            },
            None => 0,
        },
    }
}

/// The cursor a resumed event stream starts after.
pub fn stream_resume_after_seq(query_after_seq: Option<i64>, last_event_id: Option<&str>) -> (r:
    i64)
    ensures
        r == resume_after_spec(
            query_after_seq,
            match last_event_id {
                Some(v) => Some(v@),
                None => None,
            },
        ),
{
    if let Some(q) = query_after_seq {
        return q;
    }
    match last_event_id {
        Some(v) => match parse_i64(v) {
            Some(n) => if n >= 0 {
                n
            } else {
                0
            },
            None => 0,
        },
        None => 0,
    }
}

} // verus!
