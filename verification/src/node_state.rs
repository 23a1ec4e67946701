//! The node daemon's durable state: what it remembers of commands, runtimes and
//! placements, and the outbox of events that the control plane has not acknowledged.
use vstd::prelude::*;

use crate::protocol::{clone_event, opt_view, EventEnvelope, EventView};
use crate::states::{CommandState, EventKind, RuntimeSessionState};
use crate::strmap::StrMap;
use crate::text::{concat2, decimal, push_str, str_eq, string_of, strings_view, u64_to_string};

verus! {

/// One message of the transcript a node keeps of a provider conversation.
pub struct TranscriptMessage {
    pub role: String,
    pub content: String,
}

/// Where a provider can pick a conversation up again.
pub struct ProviderResumeRef {
    pub provider_session_id: Option<String>,
    pub resume_cursor: Option<String>,
}

pub open spec fn resume_ref_view(r: ProviderResumeRef) -> (Option<Seq<char>>, Option<Seq<char>>) {
    (opt_view(r.provider_session_id), opt_view(r.resume_cursor))
}

/// Everything a node daemon keeps between restarts.
pub struct NodeLocalState {
    pub daemon_installation_id: String,
    pub node_id: Option<String>,
    pub credential: Option<String>,
    pub enrollment_id: Option<String>,
    pub pairing_code: Option<String>,
    pub command_status: StrMap<CommandState>,
    pub runtime_seqs: StrMap<i64>,
    pub event_outbox: Vec<EventEnvelope>,
    pub runtime_providers: StrMap<String>,
    pub runtime_workspace_paths: StrMap<String>,
    pub runtime_states: StrMap<RuntimeSessionState>,
    pub runtime_transcripts: StrMap<Vec<TranscriptMessage>>,
    pub runtime_provider_resume_refs: StrMap<ProviderResumeRef>,
    pub placement_seqs: StrMap<i64>,
}

impl NodeLocalState {
    /// Every map of the state holds each key at most once.
    pub open spec fn wf(self) -> bool {
        &&& self.command_status.wf()
        &&& self.runtime_seqs.wf()
        &&& self.runtime_providers.wf()
        &&& self.runtime_workspace_paths.wf()
        &&& self.runtime_states.wf()
        &&& self.runtime_transcripts.wf()
        &&& self.runtime_provider_resume_refs.wf()
        &&& self.placement_seqs.wf()
    }

    /// A fresh state with the given installation id and nothing recorded.
    pub fn with_installation_id(daemon_installation_id: String) -> (s: Self)
        ensures
            s.wf(),
            s.daemon_installation_id@ == daemon_installation_id@,
            s.node_id is None && s.credential is None,
            s.enrollment_id is None && s.pairing_code is None,
            s.event_outbox@.len() == 0,
            s.command_status.keys().len() == 0,
            s.runtime_seqs.keys().len() == 0,
            s.runtime_states.keys().len() == 0,
            s.runtime_providers.keys().len() == 0,
            s.runtime_workspace_paths.keys().len() == 0,
            s.runtime_transcripts.keys().len() == 0,
            s.runtime_provider_resume_refs.keys().len() == 0,
            s.placement_seqs.keys().len() == 0,
    {
        NodeLocalState {
            daemon_installation_id,
            node_id: None,
            credential: None,
            enrollment_id: None,
            pairing_code: None,
            command_status: StrMap::new(),
            runtime_seqs: StrMap::new(),
            event_outbox: Vec::new(),
            runtime_providers: StrMap::new(),
            runtime_workspace_paths: StrMap::new(),
            runtime_states: StrMap::new(),
            runtime_transcripts: StrMap::new(),
            runtime_provider_resume_refs: StrMap::new(),
            placement_seqs: StrMap::new(),
        }
    }

    /// A fresh state under a new random installation id.
    pub fn default_state() -> (s: Self)
        ensures
            s.wf(),
            crate::text::has_prefix(s.daemon_installation_id@, "daemon-"@),
            s.node_id is None && s.credential is None,
            s.event_outbox@.len() == 0,
    {
        Self::with_installation_id(new_daemon_installation_id())
    }

    /// The node holds both an id and a credential.
    pub fn is_enrolled(&self) -> (b: bool)
        ensures
            b == (self.node_id is Some && self.credential is Some),
    {
        self.node_id.is_some() && self.credential.is_some()
    }
}

/// A new installation id: `daemon-` followed by a random identifier of 36 characters.
pub fn new_daemon_installation_id() -> (r: String)
    ensures
        crate::text::has_prefix(r@, "daemon-"@),
        r@.len() == 43,
{
    let id = crate::system::new_uuid();
    let r = concat2("daemon-", id.as_str());
    proof {
        reveal_strlit("daemon-");
    }
    assert(r@.take("daemon-"@.len() as int) =~= "daemon-"@);
    r
}

/// The control plane's answer to a node claiming its enrollment.
pub struct EnrollmentClaim {
    pub accepted: bool,
    pub pending: bool,
    pub message: String,
    pub node_id: Option<String>,
    pub credential: Option<String>,
}

impl NodeLocalState {
    /// A node asks for a new enrollment unless it holds both an enrollment id and a
    /// pairing code.
    pub fn needs_enrollment_request(&self) -> (b: bool)
        ensures
            b == (self.enrollment_id is None || self.pairing_code is None),
    {
        self.enrollment_id.is_none() || self.pairing_code.is_none()
    }

    /// Remembers the enrollment the control plane opened for this node.
    pub fn record_enrollment_request(&mut self, enrollment_id: String, pairing_code: String)
        ensures
            *final(self) == (NodeLocalState {
                enrollment_id: Some(enrollment_id),
                pairing_code: Some(pairing_code),
                ..*old(self)
            }),
    {
        self.enrollment_id = Some(enrollment_id);
        self.pairing_code = Some(pairing_code);
    }

    /// Takes in the answer to a claim and tells whether the node is now enrolled: a
    /// pending claim changes nothing; a refused one forgets the enrollment; an accepted
    /// one that carries a node id and credential stores them and forgets the enrollment.
    /// The state is to be saved when it changed.
    pub fn apply_enrollment_claim(&mut self, claim: EnrollmentClaim) -> (enrolled: bool)
        ensures
            claim.pending ==> *final(self) == *old(self) && !enrolled,
            !claim.pending && !claim.accepted ==> *final(self) == (NodeLocalState {
                enrollment_id: None,
                pairing_code: None,
                ..*old(self)
            }) && !enrolled,
            !claim.pending && claim.accepted && claim.node_id is Some && claim.credential is Some
                ==> *final(self) == (NodeLocalState {
                node_id: claim.node_id,
                credential: claim.credential,
                enrollment_id: None,
                pairing_code: None,
                ..*old(self)
            }) && enrolled,
            !claim.pending && claim.accepted && !(claim.node_id is Some && claim.credential is Some)
                ==> *final(self) == *old(self) && enrolled == (old(self).node_id is Some
                && old(self).credential is Some),
    {
        if claim.pending {
            return false;
        }
        if !claim.accepted {
            self.enrollment_id = None;
            self.pairing_code = None;
            return false;
        }
        match (claim.node_id, claim.credential) {
            (Some(node_id), Some(credential)) => {
                self.node_id = Some(node_id);
                self.credential = Some(credential);
                self.enrollment_id = None;
                self.pairing_code = None;
                true
            },
            _ => self.is_enrolled(),
        }
    }
}

/// The diagnostics line a node reports with each heartbeat.
pub open spec fn diagnostics_spec(installation_id: Seq<char>, outbox_events: nat, cached_commands: nat) -> Seq<
    char,
> {
    "daemon_installation_id="@ + installation_id + "; outbox_events="@ + decimal(outbox_events)
        + "; cached_commands="@ + decimal(cached_commands)
}

pub fn node_diagnostics(state: &NodeLocalState) -> (r: String)
    ensures
        r@ == diagnostics_spec(
            state.daemon_installation_id@,
            state.event_outbox@.len(),
            state.command_status.keys().len(),
        ),
{
    let mut s = concat2("daemon_installation_id=", state.daemon_installation_id.as_str());
    push_str(&mut s, "; outbox_events=");
    push_str(&mut s, u64_to_string(state.event_outbox.len() as u64).as_str());
    push_str(&mut s, "; cached_commands=");
    push_str(&mut s, u64_to_string(state.command_status.len() as u64).as_str());
    s
}

/// How an optional value shows in the state's summary.
pub open spec fn shown_opt(v: Option<Seq<char>>) -> Seq<char> {
    match v {
        Some(s) => "Some("@ + s + ")"@,
        None => "None"@,
    }
}

/// How a secret shows in the state's summary: whether it is there, never what it is.
pub open spec fn shown_secret(present: bool) -> Seq<char> {
    if present {
        "Some([redacted])"@
    } else {
        "None"@
    }
}

/// The number of messages in the transcript kept for `runtime_id`.
pub open spec fn transcript_len(m: StrMap<Vec<TranscriptMessage>>, runtime_id: Seq<char>) -> nat {
    match m.find(runtime_id) {
        Some(t) => t@.len(),
        None => 0,
    }
}

/// `id: count` for the first `n` transcripts, in the order they were first kept.
pub open spec fn transcript_counts_text(m: StrMap<Vec<TranscriptMessage>>, n: int) -> Seq<char>
    decreases n,
{
    if n <= 0 {
        Seq::empty()
    } else {
        transcript_counts_text(m, n - 1) + (if n - 1 > 0 {
            ", "@
        } else {
            Seq::empty()
        }) + m.keys()[n - 1] + ": "@ + decimal(transcript_len(m, m.keys()[n - 1]))
    }
}

/// The state as it may be written to a log: the credential and the pairing code only
/// as present or absent, and of each transcript only its length.
pub open spec fn redacted_summary_spec(s: NodeLocalState) -> Seq<char> {
    "NodeLocalState { daemon_installation_id: "@ + s.daemon_installation_id@ + ", node_id: "@
        + shown_opt(opt_view(s.node_id)) + ", credential: "@ + shown_secret(s.credential is Some)
        + ", enrollment_id: "@ + shown_opt(opt_view(s.enrollment_id)) + ", pairing_code: "@
        + shown_secret(s.pairing_code is Some) + ", cached_commands: "@ + decimal(
        s.command_status.keys().len(),
    ) + ", outbox_events: "@ + decimal(s.event_outbox@.len()) + ", runtime_transcript_counts: {"@
        + transcript_counts_text(s.runtime_transcripts, s.runtime_transcripts.keys().len() as int)
        + "}, runtime_provider_resume_ref_count: "@ + decimal(
        s.runtime_provider_resume_refs.keys().len(),
    ) + " }"@
}

fn push_shown_opt(s: &mut String, v: &Option<String>)
    ensures
        final(s)@ == old(s)@ + shown_opt(opt_view(*v)),
{
    match v {
        Some(x) => {
            push_str(s, "Some(");
            push_str(s, x.as_str());
            push_str(s, ")");
            assert(s@ =~= old(s)@ + shown_opt(opt_view(*v)));
        },
        None => push_str(s, "None"),
    }
}

fn push_shown_secret(s: &mut String, present: bool)
    ensures
        final(s)@ == old(s)@ + shown_secret(present),
{
    if present {
        push_str(s, "Some([redacted])");
    } else {
        push_str(s, "None");
    }
}

impl NodeLocalState {
    /// The state for a log line, with its secrets left out.
    pub fn redacted_summary(&self) -> (r: String)
        requires
            self.wf(),
        ensures
            r@ == redacted_summary_spec(*self),
    {
        let mut s = concat2("NodeLocalState { daemon_installation_id: ", self.daemon_installation_id.as_str());
        push_str(&mut s, ", node_id: ");
        push_shown_opt(&mut s, &self.node_id);
        push_str(&mut s, ", credential: ");
        push_shown_secret(&mut s, self.credential.is_some());
        push_str(&mut s, ", enrollment_id: ");
        push_shown_opt(&mut s, &self.enrollment_id);
        push_str(&mut s, ", pairing_code: ");
        push_shown_secret(&mut s, self.pairing_code.is_some());
        push_str(&mut s, ", cached_commands: ");
        push_str(&mut s, u64_to_string(self.command_status.len() as u64).as_str());
        push_str(&mut s, ", outbox_events: ");
        push_str(&mut s, u64_to_string(self.event_outbox.len() as u64).as_str());
        push_str(&mut s, ", runtime_transcript_counts: {");
        let ghost base = s@;
        let m = &self.runtime_transcripts;
        let n = m.len();
        let mut i: usize = 0;
        while i < n
            invariant
                m.wf(),
                n == m.keys().len(),
                i <= n,
                s@ == base + transcript_counts_text(*m, i as int),
            decreases n - i,
        {
            let (k, t) = m.entry_at(i);
            if i > 0 {
                push_str(&mut s, ", ");
            }
            push_str(&mut s, k.as_str());
            push_str(&mut s, ": ");
            push_str(&mut s, u64_to_string(t.len() as u64).as_str());
            proof {
                assert(transcript_len(*m, m.keys()[i as int]) == t@.len());
                assert(s@ =~= base + transcript_counts_text(*m, i + 1));
            }
            i = i + 1;
        }
        push_str(&mut s, "}, runtime_provider_resume_ref_count: ");
        push_str(&mut s, u64_to_string(self.runtime_provider_resume_refs.len() as u64).as_str());
        push_str(&mut s, " }");
        s
    }
}

proof fn lemma_counts_text_agree(
    a: StrMap<Vec<TranscriptMessage>>,
    b: StrMap<Vec<TranscriptMessage>>,
    n: int,
)
    requires
        a.keys() == b.keys(),
        n <= a.keys().len(),
        forall|k: Seq<char>| transcript_len(a, k) == transcript_len(b, k),
    ensures
        transcript_counts_text(a, n) == transcript_counts_text(b, n),
    decreases n,
{
    if n > 0 {
        lemma_counts_text_agree(a, b, n - 1);
        assert(transcript_len(a, a.keys()[n - 1]) == transcript_len(b, b.keys()[n - 1]));
    }
}

/// The summary shows no secret: two states that agree on everything the summary names
/// have the same summary, whatever their credentials and pairing codes are (present in
/// both or absent in both) and whatever their transcripts say (as long as each runtime's
/// transcript has the same length in both).
pub proof fn lemma_summary_hides_secrets(a: NodeLocalState, b: NodeLocalState)
    requires
        a.daemon_installation_id@ == b.daemon_installation_id@,
        opt_view(a.node_id) == opt_view(b.node_id),
        opt_view(a.enrollment_id) == opt_view(b.enrollment_id),
        (a.credential is Some) == (b.credential is Some),
        (a.pairing_code is Some) == (b.pairing_code is Some),
        a.command_status.keys().len() == b.command_status.keys().len(),
        a.event_outbox@.len() == b.event_outbox@.len(),
        a.runtime_transcripts.keys() == b.runtime_transcripts.keys(),
        forall|k: Seq<char>|
            transcript_len(a.runtime_transcripts, k) == transcript_len(b.runtime_transcripts, k),
        a.runtime_provider_resume_refs.keys().len() == b.runtime_provider_resume_refs.keys().len(),
    ensures
        redacted_summary_spec(a) == redacted_summary_spec(b),
{
    lemma_counts_text_agree(
        a.runtime_transcripts,
        b.runtime_transcripts,
        a.runtime_transcripts.keys().len() as int,
    );
}

/// The next sequence number of a scope: one more than the last, or one for a new
/// scope.
pub open spec fn next_seq_spec(last: Option<i64>) -> int {
    match last {
        Some(s) => s + 1,
        None => 1,
    }
}

/// Takes the next sequence number of scope `key` and records it.
pub fn next_seq(seqs: &mut StrMap<i64>, key: &str) -> (r: i64)
    requires
        old(seqs).wf(),
        old(seqs).find(key@) matches Some(s) ==> s < i64::MAX,
    ensures
        final(seqs).wf(),
        r == next_seq_spec(old(seqs).find(key@)),
        forall|k: Seq<char>| #[trigger] final(seqs).find(k) == if k == key@ {
            Some(r)
        } else {
            old(seqs).find(k)
        },
{
    let next: i64 = match seqs.get(key) {
        Some(s) => *s + 1,
        None => 1,
    };
    seqs.insert(crate::text::string_from(key), next);
    next
}

/// The status a node reports for a command from the events it produced: failed when
/// there are none or one is a runtime error, completed otherwise.
pub open spec fn command_status_spec(events: Seq<EventView>) -> CommandState {
    if events.len() == 0 {
        CommandState::Failed
    } else if exists|i: int| 0 <= i < events.len() && events[i].kind == EventKind::RuntimeError {
        CommandState::Failed
    } else {
        CommandState::Completed
    }
}

pub fn command_status_for_events(events: &Vec<EventEnvelope>) -> (r: CommandState)
    ensures
        r == command_status_spec(crate::projection::view_events(events@)),
{
    let ghost ev = crate::projection::view_events(events@);
    if events.len() == 0 {
        return CommandState::Failed;
    }
    let mut i: usize = 0;
    while i < events.len()
        invariant
            i <= events@.len(),
            ev == crate::projection::view_events(events@),
            forall|k: int| 0 <= k < i ==> events@[k].kind != EventKind::RuntimeError,
        decreases events@.len() - i,
    {
        if events[i].kind == EventKind::RuntimeError {
            assert(ev[i as int].kind == EventKind::RuntimeError);
            return CommandState::Failed;
        }
        i += 1;
    }
    assert forall|k: int| 0 <= k < ev.len() implies ev[k].kind != EventKind::RuntimeError by {
        assert(ev[k] == events@[k]@);
    }
    CommandState::Completed
}

/// The events of `events` that command `command_id` produced, in order.
pub open spec fn events_of_command(events: Seq<EventView>, command_id: Seq<char>) -> Seq<EventView>
    decreases events.len(),
{
    if events.len() == 0 {
        seq![]
    } else {
        let rest = events_of_command(events.drop_last(), command_id);
        if events.last().command_id == Some(command_id) {
            rest.push(events.last())
        } else {
            rest
        }
    }
}

/// Copies of the outbox events that command `command_id` produced, in outbox order.
pub fn outbox_events_for_command(outbox: &Vec<EventEnvelope>, command_id: &str) -> (r: Vec<
    EventEnvelope,
>)
    ensures
        crate::projection::view_events(r@) == events_of_command(
            crate::projection::view_events(outbox@),
            command_id@,
        ),
{
    let mut out: Vec<EventEnvelope> = Vec::new();
    let mut i: usize = 0;
    while i < outbox.len()
        invariant
            i <= outbox@.len(),
            crate::projection::view_events(out@) == events_of_command(
                crate::projection::view_events(outbox@.take(i as int)),
                command_id@,
            ),
        decreases outbox@.len() - i,
    {
        let e = &outbox[i];
        let ghost prev = crate::projection::view_events(outbox@.take(i as int));
        assert(crate::projection::view_events(outbox@.take(i + 1)).drop_last() =~= prev);
        assert(crate::projection::view_events(outbox@.take(i + 1)).last() == e@);
        let matches = match &e.command_id {
            Some(id) => str_eq(id.as_str(), command_id),
            None => false,
        };
        if matches {
            out.push(clone_event(e));
            assert(crate::projection::view_events(out@) =~= events_of_command(prev, command_id@).push(e@));
        }
        i += 1;
    }
    assert(outbox@.take(outbox@.len() as int) =~= outbox@);
    out
}

/// The events of `events` whose id is not among `accepted`, in order.
pub open spec fn unacknowledged(events: Seq<EventView>, accepted: Seq<Seq<char>>) -> Seq<EventView>
    decreases events.len(),
{
    if events.len() == 0 {
        seq![]
    } else {
        let rest = unacknowledged(events.drop_last(), accepted);
        if accepted.contains(events.last().event_id) {
            rest
        } else {
            rest.push(events.last())
        }
    }
}

proof fn lemma_unacknowledged_len(events: Seq<EventView>, accepted: Seq<Seq<char>>)
    ensures
        unacknowledged(events, accepted).len() <= events.len(),
    decreases events.len(),
{
    if events.len() > 0 {
        lemma_unacknowledged_len(events.drop_last(), accepted);
    }
}

/// Drops from the outbox the events whose ids the control plane acknowledged, keeping
/// the others in order, and returns how many were dropped.
pub fn remove_acked_events(outbox: &mut Vec<EventEnvelope>, accepted_event_ids: &Vec<String>) -> (r:
    usize)
    ensures
        crate::projection::view_events(final(outbox)@) == unacknowledged(
            crate::projection::view_events(old(outbox)@),
            strings_view(accepted_event_ids@),
        ),
        r == old(outbox)@.len() - final(outbox)@.len(),
{
    let ghost acc = strings_view(accepted_event_ids@);
    if outbox.len() == 0 {
        assert(crate::projection::view_events(outbox@) =~= seq![]);
        return 0;
    }
    if accepted_event_ids.len() == 0 {
        proof {
            lemma_unacknowledged_none(crate::projection::view_events(outbox@), acc);
        }
        return 0;
    }
    let original_len = outbox.len();
    let mut kept: Vec<EventEnvelope> = Vec::new();
    let mut i: usize = 0;
    while i < outbox.len()
        invariant
            i <= outbox@.len(),
            outbox@ == old(outbox)@,
            acc == strings_view(accepted_event_ids@),
            crate::projection::view_events(kept@) == unacknowledged(
                crate::projection::view_events(outbox@.take(i as int)),
                acc,
            ),
        decreases outbox@.len() - i,
    {
        let e = &outbox[i];
        let ghost prev = crate::projection::view_events(outbox@.take(i as int));
        assert(crate::projection::view_events(outbox@.take(i + 1)).drop_last() =~= prev);
        assert(crate::projection::view_events(outbox@.take(i + 1)).last() == e@);
        if !crate::text::contains_string(accepted_event_ids, e.event_id.as_str()) {
            kept.push(clone_event(e));
            assert(crate::projection::view_events(kept@) =~= unacknowledged(prev, acc).push(e@));
        }
        i += 1;
    }
    assert(outbox@.take(outbox@.len() as int) =~= outbox@);
    proof {
        lemma_unacknowledged_len(crate::projection::view_events(outbox@), acc);
    }
    *outbox = kept;
    original_len - outbox.len()
}

proof fn lemma_unacknowledged_none(events: Seq<EventView>, accepted: Seq<Seq<char>>)
    requires
        accepted.len() == 0,
    ensures
        unacknowledged(events, accepted) == events,
    decreases events.len(),
{
    if events.len() > 0 {
        lemma_unacknowledged_none(events.drop_last(), accepted);
        assert(events.drop_last().push(events.last()) =~= events);
    }
}

/// No acknowledged event stays in the outbox, and every unacknowledged one does.
pub proof fn lemma_acknowledged_events_leave_outbox(events: Seq<EventView>, accepted: Seq<Seq<char>>)
    ensures
        forall|i: int|
            0 <= i < unacknowledged(events, accepted).len() ==> !accepted.contains(
                #[trigger] unacknowledged(events, accepted)[i].event_id,
            ),
        forall|e: EventView| #[trigger] events.contains(e) && !accepted.contains(e.event_id)
            ==> unacknowledged(events, accepted).contains(e),
    decreases events.len(),
{
    if events.len() > 0 {
        let d = events.drop_last();
        let l = events.last();
        lemma_acknowledged_events_leave_outbox(d, accepted);
        let rest = unacknowledged(d, accepted);
        assert forall|e: EventView| #[trigger] events.contains(e) && !accepted.contains(e.event_id)
            implies unacknowledged(events, accepted).contains(e) by {
            assert(events == d.push(l));
            crate::text::lemma_contains_after_push(d, l, e);
            if !accepted.contains(l.event_id) {
                crate::text::lemma_contains_after_push(rest, l, e);
            }
        }
    }
}

/// Keeps only the newest `max_events` events of the outbox.
pub fn trim_event_outbox_to_limit(outbox: &mut Vec<EventEnvelope>, max_events: usize)
    ensures
        final(outbox)@ == if old(outbox)@.len() > max_events {
            old(outbox)@.skip(old(outbox)@.len() - max_events)
        } else {
            old(outbox)@
        },
{
    if outbox.len() > max_events {
        let overflow = outbox.len() - max_events;
        let kept = outbox.split_off(overflow);
        *outbox = kept;
    }
}

} // verus!

verus! {

/// The runtime state a node records on an event of `kind`.
pub open spec fn node_runtime_state_spec(kind: EventKind) -> Option<RuntimeSessionState> {
    match kind {
        EventKind::RuntimeStarting => Some(RuntimeSessionState::Starting),
        EventKind::RuntimeReady => Some(RuntimeSessionState::Ready),
        EventKind::RuntimeRunning => Some(RuntimeSessionState::Running),
        EventKind::RuntimeBlocked => Some(RuntimeSessionState::Blocked),
        EventKind::RuntimeExpired => Some(RuntimeSessionState::Expired),
        EventKind::RuntimeResuming => Some(RuntimeSessionState::Resuming),
        EventKind::RuntimeStopped => Some(RuntimeSessionState::Stopped),
        EventKind::RuntimeError => Some(RuntimeSessionState::Error),
        EventKind::TurnInterrupted => Some(RuntimeSessionState::Interrupted),
        _ => None,
    }
}

pub fn runtime_state_for_event(kind: EventKind) -> (r: Option<RuntimeSessionState>)
    ensures
        r == node_runtime_state_spec(kind),
{
    match kind {
        EventKind::RuntimeStarting => Some(RuntimeSessionState::Starting),
        EventKind::RuntimeReady => Some(RuntimeSessionState::Ready),
        EventKind::RuntimeRunning => Some(RuntimeSessionState::Running),
        EventKind::RuntimeBlocked => Some(RuntimeSessionState::Blocked),
        EventKind::RuntimeExpired => Some(RuntimeSessionState::Expired),
        EventKind::RuntimeResuming => Some(RuntimeSessionState::Resuming),
        EventKind::RuntimeStopped => Some(RuntimeSessionState::Stopped),
        EventKind::RuntimeError => Some(RuntimeSessionState::Error),
        EventKind::TurnInterrupted => Some(RuntimeSessionState::Interrupted),
        _ => None,
    }
}

/// The state the last event of `events` that moves runtime `runtime_id` moves it to.
pub open spec fn last_runtime_state(events: Seq<EventView>, runtime_id: Seq<char>) -> Option<
    RuntimeSessionState,
>
    decreases events.len(),
{
    if events.len() == 0 {
        None
    } else if events.last().runtime_session_id == Some(runtime_id) && node_runtime_state_spec(
        events.last().kind,
    ) is Some {
        node_runtime_state_spec(events.last().kind)
    } else {
        last_runtime_state(events.drop_last(), runtime_id)
    }
}

/// Records for each runtime the state that its last state-moving event in `events`
/// leaves it in.
pub fn apply_runtime_state_projection(state: &mut NodeLocalState, events: &Vec<EventEnvelope>)
    requires
        old(state).wf(),
    ensures
        final(state).wf(),
        forall|k: Seq<char>| #[trigger] final(state).runtime_states.find(k) == match last_runtime_state(
            crate::projection::view_events(events@),
            k,
        ) {
            Some(s) => Some(s),
            None => old(state).runtime_states.find(k),
        },
        final(state).daemon_installation_id == old(state).daemon_installation_id,
        final(state).node_id == old(state).node_id,
        final(state).credential == old(state).credential,
        final(state).enrollment_id == old(state).enrollment_id,
        final(state).pairing_code == old(state).pairing_code,
        final(state).command_status == old(state).command_status,
        final(state).runtime_seqs == old(state).runtime_seqs,
        final(state).event_outbox == old(state).event_outbox,
        final(state).runtime_providers == old(state).runtime_providers,
        final(state).runtime_workspace_paths == old(state).runtime_workspace_paths,
        final(state).runtime_transcripts == old(state).runtime_transcripts,
        final(state).runtime_provider_resume_refs == old(state).runtime_provider_resume_refs,
        final(state).placement_seqs == old(state).placement_seqs,
{
    let mut i: usize = 0;
    while i < events.len()
        invariant
            i <= events@.len(),
            state.wf(),
            forall|k: Seq<char>| #[trigger] state.runtime_states.find(k) == match last_runtime_state(
                crate::projection::view_events(events@.take(i as int)),
                k,
            ) {
                Some(s) => Some(s),
                None => old(state).runtime_states.find(k),
            },
            state.daemon_installation_id == old(state).daemon_installation_id,
            state.node_id == old(state).node_id,
            state.credential == old(state).credential,
            state.enrollment_id == old(state).enrollment_id,
            state.pairing_code == old(state).pairing_code,
            state.command_status == old(state).command_status,
            state.runtime_seqs == old(state).runtime_seqs,
            state.event_outbox == old(state).event_outbox,
            state.runtime_providers == old(state).runtime_providers,
            state.runtime_workspace_paths == old(state).runtime_workspace_paths,
            state.runtime_transcripts == old(state).runtime_transcripts,
            state.runtime_provider_resume_refs == old(state).runtime_provider_resume_refs,
            state.placement_seqs == old(state).placement_seqs,
        decreases events@.len() - i,
    {
        let e = &events[i];
        let ghost prev = crate::projection::view_events(events@.take(i as int));
        let ghost next = crate::projection::view_events(events@.take(i + 1));
        assert(next.drop_last() =~= prev);
        assert(next.last() == e@);
        if let Some(runtime_id) = &e.runtime_session_id {
            if let Some(s) = runtime_state_for_event(e.kind) {
                state.runtime_states.insert(runtime_id.clone(), s);
            }
        }
        i += 1;
    }
    assert(events@.take(events@.len() as int) =~= events@);
}

/// Runtime states in which a runtime is live on the node.
pub open spec fn active_state(state: RuntimeSessionState) -> bool {
    state == RuntimeSessionState::Starting || state == RuntimeSessionState::Ready || state
        == RuntimeSessionState::Running || state == RuntimeSessionState::Blocked || state
        == RuntimeSessionState::Stopping || state == RuntimeSessionState::Interrupted || state
        == RuntimeSessionState::Resuming
}

pub fn is_active_runtime_state(state: RuntimeSessionState) -> (b: bool)
    ensures
        b == active_state(state),
{
    match state {
        RuntimeSessionState::Starting
        | RuntimeSessionState::Ready
        | RuntimeSessionState::Running
        | RuntimeSessionState::Blocked
        | RuntimeSessionState::Stopping
        | RuntimeSessionState::Interrupted
        | RuntimeSessionState::Resuming => true,
        _ => false,
    }
}

/// The ids of the node's live runtimes, sorted: exactly the runtimes whose recorded
/// state is live, each once, in `String` order.
pub fn active_runtime_ids(state: &NodeLocalState) -> (r: Vec<String>)
    requires
        state.wf(),
    ensures
        crate::order::strictly_sorted(strings_view(r@)),
        forall|k: Seq<char>| #[trigger] strings_view(r@).contains(k) <==> (
        state.runtime_states.find(k) matches Some(s) && active_state(s)),
{
    let map = &state.runtime_states;
    let mut ids: Vec<String> = Vec::new();
    let mut i: usize = 0;
    while i < map.len()
        invariant
            i <= map.keys().len(),
            map.wf(),
            crate::order::strictly_sorted(strings_view(ids@)),
            forall|k: Seq<char>| #[trigger] strings_view(ids@).contains(k) ==> (map.find(k) matches Some(
                s,
            ) && active_state(s)),
            forall|j: int| 0 <= j < i ==> (map.find(#[trigger] map.keys()[j]) matches Some(s)
                && active_state(s)) ==> strings_view(ids@).contains(map.keys()[j]),
        decreases map.keys().len() - i,
    {
        let (key, value) = map.entry_at(i);
        if is_active_runtime_state(*value) {
            let ghost before = strings_view(ids@);
            crate::order::insert_sorted(&mut ids, key.clone());
            assert(strings_view(ids@).contains(key@));
        }
        i += 1;
    }
    proof {
        assert forall|k: Seq<char>| (map.find(k) matches Some(s) && active_state(s)) implies #[trigger] strings_view(
            ids@,
        ).contains(k) by {
            if map.find(k) is Some {
                map.lemma_find_matches_keys(k);
                let j = choose|j: int| 0 <= j < map.keys().len() && map.keys()[j] == k;
            }
        }
    }
    ids
}

/// How many runtimes are live on the node: the number of distinct runtime ids whose
/// recorded state is live.
pub fn active_runtime_count(state: &NodeLocalState) -> (n: i64)
    requires
        state.wf(),
        state.runtime_states.keys().len() <= i64::MAX,
    ensures
        n as int == active_runtime_set(*state).len(),
{
    let ids = active_runtime_ids(state);
    proof {
        lemma_sorted_ids_count(*state, strings_view(ids@));
        lemma_active_set_within_keys(*state);
    }
    ids.len() as i64
}

/// The ids of the runtimes whose recorded state is live.
pub open spec fn active_runtime_set(state: NodeLocalState) -> Set<Seq<char>> {
    Set::new(|k: Seq<char>| state.runtime_states.find(k) matches Some(s) && active_state(s))
}

proof fn lemma_sorted_ids_count(state: NodeLocalState, ids: Seq<Seq<char>>)
    requires
        crate::order::strictly_sorted(ids),
        forall|k: Seq<char>| #[trigger] ids.contains(k) <==> (state.runtime_states.find(k) matches Some(
            s,
        ) && active_state(s)),
    ensures
        ids.len() == active_runtime_set(state).len(),
{
    assert forall|i: int, j: int| 0 <= i < ids.len() && 0 <= j < ids.len() && i != j implies ids[i]
        != ids[j] by {
        if i < j {
            crate::order::lemma_lex_irreflexive(ids[i]);
        } else {
            crate::order::lemma_lex_irreflexive(ids[j]);
        }
    }
    assert(ids.no_duplicates());
    ids.unique_seq_to_set();
    assert forall|k: Seq<char>| ids.to_set().contains(k) <==> active_runtime_set(state).contains(
        k,
    ) by {
        if ids.to_set().contains(k) {
            assert(ids.contains(k));
        }
        if active_runtime_set(state).contains(k) {
            assert(ids.contains(k));
        }
    }
    assert(ids.to_set() =~= active_runtime_set(state));
}

proof fn lemma_active_set_within_keys(state: NodeLocalState)
    requires
        state.wf(),
    ensures
        active_runtime_set(state).len() <= state.runtime_states.keys().len(),
{
    let keys = state.runtime_states.keys();
    assert forall|k: Seq<char>| active_runtime_set(state).contains(k) implies keys.to_set().contains(
        k,
    ) by {
        state.runtime_states.lemma_find_matches_keys(k);
        let j = choose|j: int| 0 <= j < keys.len() && keys[j] == k;
        assert(keys.contains(k));
    }
    state.runtime_states.lemma_keys_unique();
    keys.unique_seq_to_set();
    vstd::set_lib::lemma_len_subset(active_runtime_set(state), keys.to_set());
}

} // verus!
