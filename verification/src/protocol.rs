//! The library's own records of the JSON payloads, references, commands and events
//! that cross the wire between the control plane and the node.
use vstd::prelude::*;

use crate::states::{CommandKind, EventKind};

verus! {

/// A JSON document as the payloads carry it; a number keeps its textual form.
pub enum JsonValue {
    Null,
    Bool(bool),
    Number(String),
    Str(String),
    Array(Vec<JsonValue>),
    Object(Vec<(String, JsonValue)>),
}

/// The mathematical value of a `JsonValue`.
pub enum JsonView {
    Null,
    Bool(bool),
    Number(Seq<char>),
    Str(Seq<char>),
    Array(Seq<JsonView>),
    Object(Seq<(Seq<char>, JsonView)>),
}

pub open spec fn json_view(v: JsonValue) -> JsonView
    decreases v, 0nat,
{
    match v {
        JsonValue::Null => JsonView::Null,
        JsonValue::Bool(b) => JsonView::Bool(b),
        JsonValue::Number(n) => JsonView::Number(n@),
        JsonValue::Str(s) => JsonView::Str(s@),
        JsonValue::Array(items) => JsonView::Array(items_view(items@, items@.len())),
        JsonValue::Object(entries) => JsonView::Object(entries_view(entries@, entries@.len())),
    }
}

pub open spec fn items_view(items: Seq<JsonValue>, n: nat) -> Seq<JsonView>
    decreases items, n,
{
    if n == 0 || n > items.len() {
        seq![]
    } else {
        items_view(items, (n - 1) as nat).push(json_view(items[n - 1]))
    }
}

pub open spec fn entries_view(entries: Seq<(String, JsonValue)>, n: nat) -> Seq<(Seq<char>, JsonView)>
    decreases entries, n,
{
    if n == 0 || n > entries.len() {
        seq![]
    } else {
        entries_view(entries, (n - 1) as nat).push((entries[n - 1].0@, json_view(entries[n - 1].1)))
    }
}

} // verus!

verus! {

impl View for JsonValue {
    type V = JsonView;

    open spec fn view(&self) -> JsonView {
        json_view(*self)
    }
}

pub proof fn lemma_items_view(items: Seq<JsonValue>, n: nat)
    requires
        n <= items.len(),
    ensures
        items_view(items, n).len() == n,
        forall|i: int| 0 <= i < n ==> #[trigger] items_view(items, n)[i] == json_view(items[i]),
    decreases n,
{
    if n > 0 {
        lemma_items_view(items, (n - 1) as nat);
    }
}

pub proof fn lemma_entries_view(entries: Seq<(String, JsonValue)>, n: nat)
    requires
        n <= entries.len(),
    ensures
        entries_view(entries, n).len() == n,
        forall|i: int|
            0 <= i < n ==> #[trigger] entries_view(entries, n)[i] == (
                entries[i].0@,
                json_view(entries[i].1),
            ),
    decreases n,
{
    if n > 0 {
        lemma_entries_view(entries, (n - 1) as nat);
    }
}

/// The value under the first entry of `entries`, from index `i` on, whose key is `key`.
pub open spec fn lookup_from(entries: Seq<(Seq<char>, JsonView)>, key: Seq<char>, i: int) -> Option<
    JsonView,
>
    decreases entries.len() - i,
{
    if i < 0 || i >= entries.len() {
        None
    } else if entries[i].0 == key {
        Some(entries[i].1)
    } else {
        lookup_from(entries, key, i + 1)
    }
}

/// `serde_json::Value::get` with a string key: the member `key` of an object.
pub open spec fn view_get(v: JsonView, key: Seq<char>) -> Option<JsonView> {
    match v {
        JsonView::Object(entries) => lookup_from(entries, key, 0),
        _ => None,
    }
}

/// The text of a JSON string.
pub open spec fn view_as_str(v: Option<JsonView>) -> Option<Seq<char>> {
    match v {
        Some(JsonView::Str(s)) => Some(s),
        _ => None,
    }
}

/// The value of a JSON boolean.
pub open spec fn view_as_bool(v: Option<JsonView>) -> Option<bool> {
    match v {
        Some(JsonView::Bool(b)) => Some(b),
        _ => None,
    }
}

/// The string member `key` of `v`, when `v` is an object whose member `key` is a string.
pub open spec fn str_member(v: JsonView, key: Seq<char>) -> Option<Seq<char>> {
    view_as_str(view_get(v, key))
}

/// The member `key` of `value`, when `value` is an object that has one.
pub fn json_get<'a>(value: &'a JsonValue, key: &str) -> (r: Option<&'a JsonValue>)
    ensures
        match r {
            Some(x) => view_get(value@, key@) == Some(x@),
            None => view_get(value@, key@) is None,
        },
{
    match value {
        JsonValue::Object(entries) => {
            proof {
                lemma_entries_view(entries@, entries@.len());
            }
            let ghost es = entries_view(entries@, entries@.len());
            let mut i: usize = 0;
            while i < entries.len()
                invariant
                    i <= entries@.len(),
                    es == entries_view(entries@, entries@.len()),
                    es.len() == entries@.len(),
                    forall|k: int|
                        0 <= k < entries@.len() ==> #[trigger] es[k] == (
                            entries@[k].0@,
                            json_view(entries@[k].1),
                        ),
                    lookup_from(es, key@, 0) == lookup_from(es, key@, i as int),
                    value@ == JsonView::Object(es),
                decreases entries@.len() - i,
            {
                let entry = &entries[i];
                if crate::text::str_eq(entry.0.as_str(), key) {
                    return Some(&entry.1);
                }
                i += 1;
            }
            None
        },
        _ => None,
    }
}

/// The string member `key` of `value`.
pub fn json_get_str<'a>(value: &'a JsonValue, key: &str) -> (r: Option<&'a str>)
    ensures
        match r {
            Some(s) => str_member(value@, key@) == Some(s@),
            None => str_member(value@, key@) is None,
        },
{
    match json_get(value, key) {
        Some(JsonValue::Str(s)) => Some(s.as_str()),
        _ => None,
    }
}

/// The boolean member `key` of `value`.
pub fn json_get_bool(value: &JsonValue, key: &str) -> (r: Option<bool>)
    ensures
        r == view_as_bool(view_get(value@, key@)),
{
    match json_get(value, key) {
        Some(JsonValue::Bool(b)) => Some(*b),
        _ => None,
    }
}

/// A copy of `value`.
#[verifier::loop_isolation(false)]
pub fn clone_json(value: &JsonValue) -> (r: JsonValue)
    ensures
        r@ == value@,
    decreases value,
{
    match value {
        JsonValue::Null => JsonValue::Null,
        JsonValue::Bool(b) => JsonValue::Bool(*b),
        JsonValue::Number(n) => JsonValue::Number(n.clone()),
        JsonValue::Str(s) => JsonValue::Str(s.clone()),
        JsonValue::Array(items) => {
            let mut out: Vec<JsonValue> = Vec::new();
            let mut i: usize = 0;
            while i < items.len()
                invariant
                    i <= items@.len(),
                    items_view(out@, out@.len()) == items_view(items@, i as nat),
                    out@.len() == i,
                decreases items@.len() - i,
            {
                assert(decreases_to!(*value => *items));
                assert(decreases_to!(*items => items@));
                assert(decreases_to!(items@ => items@[i as int]));
                let c = clone_json(&items[i]);
                let ghost before = out@;
                out.push(c);
                proof {
                    lemma_items_view_same(out@, before, i as nat);
                }
                i += 1;
            }
            JsonValue::Array(out)
        },
        JsonValue::Object(entries) => {
            let mut out: Vec<(String, JsonValue)> = Vec::new();
            let mut i: usize = 0;
            while i < entries.len()
                invariant
                    i <= entries@.len(),
                    entries_view(out@, out@.len()) == entries_view(entries@, i as nat),
                    out@.len() == i,
                decreases entries@.len() - i,
            {
                assert(decreases_to!(*value => *entries));
                assert(decreases_to!(*entries => entries@));
                assert(decreases_to!(entries@ => entries@[i as int]));
                assert(decreases_to!(entries@[i as int] => entries@[i as int].1));
                let c = clone_json(&entries[i].1);
                let k = entries[i].0.clone();
                let ghost before = out@;
                out.push((k, c));
                proof {
                    lemma_entries_view_same(out@, before, i as nat);
                }
                i += 1;
            }
            JsonValue::Object(out)
        },
    }
}

/// The view of the first `n` items depends only on those items.
proof fn lemma_items_view_same(a: Seq<JsonValue>, b: Seq<JsonValue>, n: nat)
    requires
        n <= a.len(),
        n <= b.len(),
        forall|i: int| 0 <= i < n ==> a[i] == b[i],
    ensures
        items_view(a, n) == items_view(b, n),
    decreases n,
{
    if n > 0 {
        lemma_items_view_same(a, b, (n - 1) as nat);
    }
}

/// The view of the first `n` entries depends only on those entries.
proof fn lemma_entries_view_same(a: Seq<(String, JsonValue)>, b: Seq<(String, JsonValue)>, n: nat)
    requires
        n <= a.len(),
        n <= b.len(),
        forall|i: int| 0 <= i < n ==> a[i] == b[i],
    ensures
        entries_view(a, n) == entries_view(b, n),
    decreases n,
{
    if n > 0 {
        lemma_entries_view_same(a, b, (n - 1) as nat);
    }
}

} // verus!

verus! {

/// The view of an optional string.
pub open spec fn opt_view(o: Option<String>) -> Option<Seq<char>> {
    match o {
        Some(s) => Some(s@),
        None => None,
    }
}

/// A copy of an optional string.
pub fn clone_opt(o: &Option<String>) -> (r: Option<String>)
    ensures
        opt_view(r) == opt_view(*o),
{
    match o {
        Some(s) => Some(s.clone()),
        None => None,
    }
}

/// Who caused a command or an event.
pub enum ActorRef {
    LocalUser { actor_id: Option<String> },
    System,
    Node { node_id: String },
    Provider { provider: String },
    Unknown,
}

pub enum ActorView {
    LocalUser { actor_id: Option<Seq<char>> },
    System,
    Node { node_id: Seq<char> },
    Provider { provider: Seq<char> },
    Unknown,
}

impl View for ActorRef {
    type V = ActorView;

    open spec fn view(&self) -> ActorView {
        match self {
            ActorRef::LocalUser { actor_id } => ActorView::LocalUser { actor_id: opt_view(*actor_id) },
            ActorRef::System => ActorView::System,
            ActorRef::Node { node_id } => ActorView::Node { node_id: node_id@ },
            ActorRef::Provider { provider } => ActorView::Provider { provider: provider@ },
            ActorRef::Unknown => ActorView::Unknown,
        }
    }
}

pub fn clone_actor(a: &ActorRef) -> (r: ActorRef)
    ensures
        r@ == a@,
{
    match a {
        ActorRef::LocalUser { actor_id } => ActorRef::LocalUser { actor_id: clone_opt(actor_id) },
        ActorRef::System => ActorRef::System,
        ActorRef::Node { node_id } => ActorRef::Node { node_id: node_id.clone() },
        ActorRef::Provider { provider } => ActorRef::Provider { provider: provider.clone() },
        ActorRef::Unknown => ActorRef::Unknown,
    }
}

/// The stream an event belongs to; each scope numbers its events on its own.
pub enum ScopeRef {
    Runtime { runtime_session_id: String },
    Session { session_thread_id: String },
    Node { node_id: String },
    Placement { project_placement_id: String },
    Unknown { scope: String },
}

pub enum ScopeView {
    Runtime { runtime_session_id: Seq<char> },
    Session { session_thread_id: Seq<char> },
    Node { node_id: Seq<char> },
    Placement { project_placement_id: Seq<char> },
    Unknown { scope: Seq<char> },
}

impl View for ScopeRef {
    type V = ScopeView;

    open spec fn view(&self) -> ScopeView {
        match self {
            ScopeRef::Runtime { runtime_session_id } => ScopeView::Runtime {
                runtime_session_id: runtime_session_id@,
            },
            ScopeRef::Session { session_thread_id } => ScopeView::Session {
                session_thread_id: session_thread_id@,
            },
            ScopeRef::Node { node_id } => ScopeView::Node { node_id: node_id@ },
            ScopeRef::Placement { project_placement_id } => ScopeView::Placement {
                project_placement_id: project_placement_id@,
            },
            ScopeRef::Unknown { scope } => ScopeView::Unknown { scope: scope@ },
        }
    }
}

pub fn clone_scope(s: &ScopeRef) -> (r: ScopeRef)
    ensures
        r@ == s@,
{
    match s {
        ScopeRef::Runtime { runtime_session_id } => ScopeRef::Runtime {
            runtime_session_id: runtime_session_id.clone(),
        },
        ScopeRef::Session { session_thread_id } => ScopeRef::Session {
            session_thread_id: session_thread_id.clone(),
        },
        ScopeRef::Node { node_id } => ScopeRef::Node { node_id: node_id.clone() },
        ScopeRef::Placement { project_placement_id } => ScopeRef::Placement {
            project_placement_id: project_placement_id.clone(),
        },
        ScopeRef::Unknown { scope } => ScopeRef::Unknown { scope: scope.clone() },
    }
}

/// A reference to something a client can open: a session, a runtime, a placement, a
/// message, an event, an approval or a warning.
pub enum CortexRef {
    Session { session_thread_id: String },
    Runtime { runtime_session_id: String },
    Placement { placement_id: String },
    Message { message_id: String },
    Event { event_id: String, scope_ref: ScopeRef, seq: i64 },
    Approval { approval_id: String },
    Warning { warning_kind: String, command_id: Option<String> },
}

pub enum RefView {
    Session { session_thread_id: Seq<char> },
    Runtime { runtime_session_id: Seq<char> },
    Placement { placement_id: Seq<char> },
    Message { message_id: Seq<char> },
    Event { event_id: Seq<char>, scope_ref: ScopeView, seq: int },
    Approval { approval_id: Seq<char> },
    Warning { warning_kind: Seq<char>, command_id: Option<Seq<char>> },
}

impl View for CortexRef {
    type V = RefView;

    open spec fn view(&self) -> RefView {
        match self {
            CortexRef::Session { session_thread_id } => RefView::Session {
                session_thread_id: session_thread_id@,
            },
            CortexRef::Runtime { runtime_session_id } => RefView::Runtime {
                runtime_session_id: runtime_session_id@,
            },
            CortexRef::Placement { placement_id } => RefView::Placement {
                placement_id: placement_id@,
            },
            CortexRef::Message { message_id } => RefView::Message { message_id: message_id@ },
            CortexRef::Event { event_id, scope_ref, seq } => RefView::Event {
                event_id: event_id@,
                scope_ref: scope_ref@,
                seq: *seq as int,
            },
            CortexRef::Approval { approval_id } => RefView::Approval { approval_id: approval_id@ },
            CortexRef::Warning { warning_kind, command_id } => RefView::Warning {
                warning_kind: warning_kind@,
                command_id: opt_view(*command_id),
            },
        }
    }
}

pub fn clone_ref(r: &CortexRef) -> (c: CortexRef)
    ensures
        c@ == r@,
{
    match r {
        CortexRef::Session { session_thread_id } => CortexRef::Session {
            session_thread_id: session_thread_id.clone(),
        },
        CortexRef::Runtime { runtime_session_id } => CortexRef::Runtime {
            runtime_session_id: runtime_session_id.clone(),
        },
        CortexRef::Placement { placement_id } => CortexRef::Placement {
            placement_id: placement_id.clone(),
        },
        CortexRef::Message { message_id } => CortexRef::Message { message_id: message_id.clone() },
        CortexRef::Event { event_id, scope_ref, seq } => CortexRef::Event {
            event_id: event_id.clone(),
            scope_ref: clone_scope(scope_ref),
            seq: *seq,
        },
        CortexRef::Approval { approval_id } => CortexRef::Approval {
            approval_id: approval_id.clone(),
        },
        CortexRef::Warning { warning_kind, command_id } => CortexRef::Warning {
            warning_kind: warning_kind.clone(),
            command_id: clone_opt(command_id),
        },
    }
}

/// The views of a list of references.
pub open spec fn refs_view(refs: Seq<CortexRef>) -> Seq<RefView> {
    refs.map_values(|r: CortexRef| r@)
}

pub fn clone_refs(refs: &Vec<CortexRef>) -> (r: Vec<CortexRef>)
    ensures
        refs_view(r@) == refs_view(refs@),
{
    let mut out: Vec<CortexRef> = Vec::new();
    let mut i: usize = 0;
    while i < refs.len()
        invariant
            i <= refs@.len(),
            refs_view(out@) == refs_view(refs@.take(i as int)),
        decreases refs@.len() - i,
    {
        out.push(clone_ref(&refs[i]));
        assert(refs_view(refs@.take(i + 1)) =~= refs_view(refs@.take(i as int)).push(refs@[i as int]@));
        assert(refs_view(out@) =~= refs_view(refs@.take(i + 1)));
        i += 1;
    }
    assert(refs@.take(refs@.len() as int) =~= refs@);
    out
}

} // verus!

verus! {

/// One fact that a node or the control plane recorded, numbered within its scope.
pub struct EventEnvelope {
    pub event_id: String,
    pub command_id: Option<String>,
    pub correlation_id: Option<String>,
    pub actor_ref: ActorRef,
    pub scope_ref: ScopeRef,
    pub node_id: Option<String>,
    pub runtime_session_id: Option<String>,
    pub session_thread_id: Option<String>,
    pub turn_id: Option<String>,
    pub seq: i64,
    pub kind: EventKind,
    /// Milliseconds since the Unix epoch.
    pub happened_at: i64,
    pub source_refs: Vec<CortexRef>,
    pub evidence_refs: Vec<CortexRef>,
    pub cause_refs: Vec<CortexRef>,
    pub result_refs: Vec<CortexRef>,
    pub payload: JsonValue,
}

pub struct EventView {
    pub event_id: Seq<char>,
    pub command_id: Option<Seq<char>>,
    pub correlation_id: Option<Seq<char>>,
    pub actor_ref: ActorView,
    pub scope_ref: ScopeView,
    pub node_id: Option<Seq<char>>,
    pub runtime_session_id: Option<Seq<char>>,
    pub session_thread_id: Option<Seq<char>>,
    pub turn_id: Option<Seq<char>>,
    pub seq: int,
    pub kind: EventKind,
    pub happened_at: int,
    pub source_refs: Seq<RefView>,
    pub evidence_refs: Seq<RefView>,
    pub cause_refs: Seq<RefView>,
    pub result_refs: Seq<RefView>,
    pub payload: JsonView,
}

impl View for EventEnvelope {
    type V = EventView;

    open spec fn view(&self) -> EventView {
        EventView {
            event_id: self.event_id@,
            command_id: opt_view(self.command_id),
            correlation_id: opt_view(self.correlation_id),
            actor_ref: self.actor_ref@,
            scope_ref: self.scope_ref@,
            node_id: opt_view(self.node_id),
            runtime_session_id: opt_view(self.runtime_session_id),
            session_thread_id: opt_view(self.session_thread_id),
            turn_id: opt_view(self.turn_id),
            seq: self.seq as int,
            kind: self.kind,
            happened_at: self.happened_at as int,
            source_refs: refs_view(self.source_refs@),
            evidence_refs: refs_view(self.evidence_refs@),
            cause_refs: refs_view(self.cause_refs@),
            result_refs: refs_view(self.result_refs@),
            payload: self.payload@,
        }
    }
}

/// A copy of `e`.
pub fn clone_event(e: &EventEnvelope) -> (r: EventEnvelope)
    ensures
        r@ == e@,
{
    EventEnvelope {
        event_id: e.event_id.clone(),
        command_id: clone_opt(&e.command_id),
        correlation_id: clone_opt(&e.correlation_id),
        actor_ref: clone_actor(&e.actor_ref),
        scope_ref: clone_scope(&e.scope_ref),
        node_id: clone_opt(&e.node_id),
        runtime_session_id: clone_opt(&e.runtime_session_id),
        session_thread_id: clone_opt(&e.session_thread_id),
        turn_id: clone_opt(&e.turn_id),
        seq: e.seq,
        kind: e.kind,
        happened_at: e.happened_at,
        source_refs: clone_refs(&e.source_refs),
        evidence_refs: clone_refs(&e.evidence_refs),
        cause_refs: clone_refs(&e.cause_refs),
        result_refs: clone_refs(&e.result_refs),
        payload: clone_json(&e.payload),
    }
}

/// What the control plane asks one node to do.
pub struct CommandEnvelope {
    pub command_id: String,
    pub kind: CommandKind,
    pub target_node_id: String,
    pub actor_ref: ActorRef,
    pub session_thread_id: Option<String>,
    pub runtime_session_id: Option<String>,
    pub project_placement_id: Option<String>,
    pub source_refs: Vec<CortexRef>,
    pub cause_refs: Vec<CortexRef>,
    /// Milliseconds since the Unix epoch.
    pub issued_at: i64,
    pub correlation_id: String,
    pub payload: JsonValue,
}

pub struct CommandView {
    pub command_id: Seq<char>,
    pub kind: CommandKind,
    pub target_node_id: Seq<char>,
    pub actor_ref: ActorView,
    pub session_thread_id: Option<Seq<char>>,
    pub runtime_session_id: Option<Seq<char>>,
    pub project_placement_id: Option<Seq<char>>,
    pub source_refs: Seq<RefView>,
    pub cause_refs: Seq<RefView>,
    pub issued_at: int,
    pub correlation_id: Seq<char>,
    pub payload: JsonView,
}

impl View for CommandEnvelope {
    type V = CommandView;

    open spec fn view(&self) -> CommandView {
        CommandView {
            command_id: self.command_id@,
            kind: self.kind,
            target_node_id: self.target_node_id@,
            actor_ref: self.actor_ref@,
            session_thread_id: opt_view(self.session_thread_id),
            runtime_session_id: opt_view(self.runtime_session_id),
            project_placement_id: opt_view(self.project_placement_id),
            source_refs: refs_view(self.source_refs@),
            cause_refs: refs_view(self.cause_refs@),
            issued_at: self.issued_at as int,
            correlation_id: self.correlation_id@,
            payload: self.payload@,
        }
    }
}

} // verus!

verus! {

/// A JSON object of one member.
pub open spec fn obj1(k1: Seq<char>, v1: JsonView) -> JsonView {
    JsonView::Object(seq![(k1, v1)])
}

/// A JSON object of two members, in this order.
pub open spec fn obj2(k1: Seq<char>, v1: JsonView, k2: Seq<char>, v2: JsonView) -> JsonView {
    JsonView::Object(seq![(k1, v1), (k2, v2)])
}

/// A JSON object of three members, in this order.
pub open spec fn obj3(
    k1: Seq<char>,
    v1: JsonView,
    k2: Seq<char>,
    v2: JsonView,
    k3: Seq<char>,
    v3: JsonView,
) -> JsonView {
    JsonView::Object(seq![(k1, v1), (k2, v2), (k3, v3)])
}

/// The empty JSON object.
pub open spec fn obj0() -> JsonView {
    JsonView::Object(seq![])
}

/// A JSON string.
pub fn json_str(s: &str) -> (r: JsonValue)
    ensures
        r@ == JsonView::Str(s@),
{
    JsonValue::Str(crate::text::string_from(s))
}

/// The empty JSON object.
pub fn json_obj0() -> (r: JsonValue)
    ensures
        r@ == obj0(),
{
    let es: Vec<(String, JsonValue)> = Vec::new();
    let r = JsonValue::Object(es);
    assert(entries_view(es@, 0) =~= seq![]);
    r
}

/// Appends the member `key: value` to the entries of an object under construction.
pub fn push_member(entries: &mut Vec<(String, JsonValue)>, key: &str, value: JsonValue)
    ensures
        entries_view(final(entries)@, final(entries)@.len()) == entries_view(
            old(entries)@,
            old(entries)@.len(),
        ).push((key@, value@)),
{
    let ghost before = entries@;
    entries.push((crate::text::string_from(key), value));
    proof {
        lemma_entries_view_same(entries@, before, before.len());
    }
}

/// A JSON object of one member.
pub fn json_obj1(k1: &str, v1: JsonValue) -> (r: JsonValue)
    ensures
        r@ == obj1(k1@, v1@),
{
    let mut es: Vec<(String, JsonValue)> = Vec::new();
    assert(entries_view(es@, 0) =~= seq![]);
    push_member(&mut es, k1, v1);
    let r = JsonValue::Object(es);
    assert(entries_view(es@, es@.len()) =~= seq![(k1@, v1@)]);
    r
}

/// A JSON object of two members, in this order.
pub fn json_obj2(k1: &str, v1: JsonValue, k2: &str, v2: JsonValue) -> (r: JsonValue)
    ensures
        r@ == obj2(k1@, v1@, k2@, v2@),
{
    let mut es: Vec<(String, JsonValue)> = Vec::new();
    assert(entries_view(es@, 0) =~= seq![]);
    push_member(&mut es, k1, v1);
    push_member(&mut es, k2, v2);
    let r = JsonValue::Object(es);
    assert(entries_view(es@, es@.len()) =~= seq![(k1@, v1@), (k2@, v2@)]);
    r
}

/// A JSON object of three members, in this order.
pub fn json_obj3(k1: &str, v1: JsonValue, k2: &str, v2: JsonValue, k3: &str, v3: JsonValue) -> (r:
    JsonValue)
    ensures
        r@ == obj3(k1@, v1@, k2@, v2@, k3@, v3@),
{
    let mut es: Vec<(String, JsonValue)> = Vec::new();
    assert(entries_view(es@, 0) =~= seq![]);
    push_member(&mut es, k1, v1);
    push_member(&mut es, k2, v2);
    push_member(&mut es, k3, v3);
    let r = JsonValue::Object(es);
    assert(entries_view(es@, es@.len()) =~= seq![(k1@, v1@), (k2@, v2@), (k3@, v3@)]);
    r
}

/// A JSON object built from its members, in order.
pub fn json_object(entries: Vec<(String, JsonValue)>) -> (r: JsonValue)
    ensures
        r@ == JsonView::Object(entries_view(entries@, entries@.len())),
{
    JsonValue::Object(entries)
}

} // verus!
