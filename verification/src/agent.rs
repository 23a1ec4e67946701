//! The agent projection of a session: everything a client needs to show and steer it,
//! computed from the session's placement, runtime, messages and events, the node's
//! presence and what the node advertises.
use vstd::prelude::*;

use crate::policy::{
    accepts_commands, active_warnings, active_warnings_spec, available_commands, badges_view,
    has_hard_block, node_accepts_commands, node_presence_warning, offered_commands,
    placement_has_hard_block, presence_warning_spec, BadgeView, PlacementSummary, ResourceBadge,
    RuntimeSummary,
};
use crate::projection::{current_turn, current_turn_spec, pending_after, pending_approvals, view_events};
use crate::protocol::{opt_view, refs_view, CortexRef, EventEnvelope, RefView};
use crate::session_views::{
    count_with, messages_view, recent_turn_summaries, resume_context, resume_context_spec,
    source_cause_summary, source_cause_summary_spec, turn_summaries, visible_refs, visible_refs_spec,
    MessageRecord,
};
use crate::states::{NodePresence, SessionThreadState, WarningSeverity};
use crate::text::{contains_string, decimal, push_str, string_from, strings_view, u64_to_string};

verus! {

/// What a client is shown of a session.
pub struct AgentProjection {
    pub session_thread_id: String,
    pub project_placement: PlacementSummary,
    pub runtime_summary: RuntimeSummary,
    pub current_turn: Option<String>,
    pub pending_approvals: Vec<String>,
    pub active_warnings: Vec<ResourceBadge>,
    pub recent_turn_summaries: Vec<String>,
    pub recent_message_refs: Vec<CortexRef>,
    pub artifact_tree_summary: String,
    pub available_block_types: Vec<String>,
    pub available_commands: Vec<String>,
    pub visible_refs: Vec<CortexRef>,
    pub source_cause_summary: String,
    pub resume_context: String,
    /// Milliseconds since the Unix epoch.
    pub generated_at: i64,
}

/// The hard block shown when the node does not advertise the session's provider.
pub open spec fn provider_unavailable_badge(provider: Seq<char>) -> BadgeView {
    BadgeView {
        kind: "provider_unavailable"@,
        severity: WarningSeverity::HardBlock,
        label: "Provider `"@ + provider + "` is not advertised by this node"@,
    }
}

/// The warnings of a session: those of its placement and runtime, then the node's
/// presence warning, then the missing provider, each unless its kind is acknowledged.
pub open spec fn projection_warnings(
    placement_badges: Seq<BadgeView>,
    degraded_reason: Option<Seq<char>>,
    acknowledged: Seq<Seq<char>>,
    presence: NodePresence,
    provider_available: bool,
    provider: Seq<char>,
) -> Seq<BadgeView> {
    let base = active_warnings_spec(placement_badges, degraded_reason, acknowledged);
    let with_presence = match presence_warning_spec(presence) {
        Some(b) => if !acknowledged.contains(b.kind) {
            base.push(b)
        } else {
            base
        },
        None => base,
    };
    if !provider_available && !acknowledged.contains("provider_unavailable"@) {
        with_presence.push(provider_unavailable_badge(provider))
    } else {
        with_presence
    }
}

/// References to the newest five messages, newest first.
pub open spec fn recent_message_refs_spec(messages: Seq<MessageRecord>) -> Seq<RefView> {
    let n = if messages.len() < 5 { messages.len() as int } else { 5 };
    Seq::new(
        n as nat,
        |k: int| RefView::Message { message_id: messages[messages.len() - 1 - k].message_id@ },
    )
}

/// The one-line index of what a session holds.
pub open spec fn index_summary(messages: nat, events: nat, pending: nat) -> Seq<char> {
    "Session-local index: "@ + decimal(messages) + " messages, "@ + decimal(events) + " events, "@
        + decimal(pending) + " pending approvals"@
}

/// The kinds of blocks a client may render for a session.
pub open spec fn block_types() -> Seq<Seq<char>> {
    seq![
        "core.user-message"@,
        "core.assistant-message"@,
        "core.provider-output-stream"@,
        "core.approval-request"@,
        "core.runtime-event"@,
        "core.workspace-validation"@,
        "core.resource-snapshot"@,
        "core.warning"@,
        "core.error"@,
        "core.agent-projection-summary"@,
        "core.unknown"@,
    ]
}

fn push_badge(v: &mut Vec<ResourceBadge>, b: ResourceBadge)
    ensures
        badges_view(final(v)@) == badges_view(old(v)@).push(b@),
{
    v.push(b);
    assert(badges_view(v@) =~= badges_view(old(v)@).push(b@));
}

fn block_type_list() -> (r: Vec<String>)
    ensures
        strings_view(r@) == block_types(),
{
    let r = vec![
        string_from("core.user-message"),
        string_from("core.assistant-message"),
        string_from("core.provider-output-stream"),
        string_from("core.approval-request"),
        string_from("core.runtime-event"),
        string_from("core.workspace-validation"),
        string_from("core.resource-snapshot"),
        string_from("core.warning"),
        string_from("core.error"),
        string_from("core.agent-projection-summary"),
        string_from("core.unknown"),
    ];
    assert(strings_view(r@) =~= block_types());
    r
}

fn recent_message_refs(messages: &Vec<MessageRecord>) -> (r: Vec<CortexRef>)
    ensures
        refs_view(r@) == recent_message_refs_spec(messages@),
{
    let n = messages.len();
    let take: usize = if n < 5 { n } else { 5 };
    let mut r: Vec<CortexRef> = Vec::new();
    let mut k: usize = 0;
    while k < take
        invariant
            k <= take,
            n == messages@.len(),
            take == (if n < 5 { n } else { 5 }),
            refs_view(r@) == recent_message_refs_spec(messages@).take(k as int),
        decreases take - k,
    {
        let m = &messages[n - 1 - k];
        let ghost before = r@;
        let c = CortexRef::Message { message_id: m.message_id.clone() };
        r.push(c);
        assert(refs_view(r@) =~= refs_view(before).push(c@));
        assert(recent_message_refs_spec(messages@).take(k + 1) =~= recent_message_refs_spec(messages@).take(
            k as int,
        ).push(RefView::Message { message_id: messages@[n - 1 - k].message_id@ }));
        k += 1;
    }
    assert(recent_message_refs_spec(messages@).take(take as int) =~= recent_message_refs_spec(messages@));
    r
}

fn index_summary_text(messages: usize, events: usize, pending: usize) -> (r: String)
    ensures
        r@ == index_summary(messages as nat, events as nat, pending as nat),
{
    let mut s = string_from("Session-local index: ");
    push_str(&mut s, u64_to_string(messages as u64).as_str());
    push_str(&mut s, " messages, ");
    push_str(&mut s, u64_to_string(events as u64).as_str());
    push_str(&mut s, " events, ");
    push_str(&mut s, u64_to_string(pending as u64).as_str());
    push_str(&mut s, " pending approvals");
    s
}

/// The agent projection of a session in `session_state` whose placement, runtime,
/// messages and events are given, on a node with `node_presence` that does or does not
/// advertise the runtime's provider, with the warning kinds already acknowledged. The
/// time it was generated at is the clock's; nothing is stated of it.
pub fn agent_projection(
    session_thread_id: &str,
    session_state: SessionThreadState,
    placement: PlacementSummary,
    runtime: RuntimeSummary,
    messages: &Vec<MessageRecord>,
    events: &Vec<EventEnvelope>,
    node_presence: NodePresence,
    provider_available: bool,
    acknowledged: &Vec<String>,
) -> (r: AgentProjection)
    ensures
        r.session_thread_id@ == session_thread_id@,
        r.project_placement == placement,
        r.runtime_summary == runtime,
        opt_view(r.current_turn) == current_turn_spec(view_events(events@)),
        strings_view(r.pending_approvals@) == pending_after(view_events(events@)),
        badges_view(r.active_warnings@) == projection_warnings(
            badges_view(placement.resource_badges@),
            opt_view(runtime.degraded_reason),
            strings_view(acknowledged@),
            node_presence,
            provider_available,
            runtime.provider@,
        ),
        strings_view(r.recent_turn_summaries@) == turn_summaries(messages_view(messages@)),
        refs_view(r.recent_message_refs@) == recent_message_refs_spec(messages@),
        r.artifact_tree_summary@ == index_summary(
            messages@.len(),
            events@.len(),
            pending_after(view_events(events@)).len(),
        ),
        strings_view(r.available_block_types@) == block_types(),
        strings_view(r.available_commands@) == offered_commands(
            session_state,
            runtime.state,
            pending_after(view_events(events@)).len() > 0,
            r.active_warnings@.len() > 0,
            accepts_commands(node_presence),
            has_hard_block(badges_view(placement.resource_badges@)),
            provider_available,
        ),
        refs_view(r.visible_refs@) == visible_refs_spec(
            session_thread_id@,
            runtime.runtime_session_id@,
            placement.project_placement_id@,
            view_events(events@),
            pending_after(view_events(events@)),
            badges_view(r.active_warnings@),
            refs_view(r.recent_message_refs@),
        ),
        r.source_cause_summary@ == source_cause_summary_spec(
            events@.len(),
            count_with(view_events(events@), 0),
            count_with(view_events(events@), 1),
            count_with(view_events(events@), 2),
        ),
        r.resume_context@ == resume_context_spec(
            runtime.state,
            runtime.provider@,
            opt_view(r.current_turn),
            pending_after(view_events(events@)),
            opt_view(runtime.degraded_reason),
            turn_summaries(messages_view(messages@)),
        ),
{
    let turn = current_turn(events);
    let pending = pending_approvals(events);
    let mut warnings = active_warnings(&placement, &runtime, acknowledged);
    if let Some(w) = node_presence_warning(node_presence) {
        if !contains_string(acknowledged, w.kind.as_str()) {
            push_badge(&mut warnings, w);
        }
    }
    if !provider_available && !contains_string(acknowledged, "provider_unavailable") {
        let mut label = string_from("Provider `");
        push_str(&mut label, runtime.provider.as_str());
        push_str(&mut label, "` is not advertised by this node");
        push_badge(
            &mut warnings,
            ResourceBadge {
                kind: string_from("provider_unavailable"),
                severity: WarningSeverity::HardBlock,
                label,
            },
        );
    }
    let summaries = recent_turn_summaries(messages);
    let message_refs = recent_message_refs(messages);
    let refs = visible_refs(
        session_thread_id,
        runtime.runtime_session_id.as_str(),
        placement.project_placement_id.as_str(),
        events,
        &pending,
        &warnings,
        &message_refs,
    );
    let causes = source_cause_summary(events);
    let turn_ref: Option<&str> = match &turn {
        Some(t) => Some(t.as_str()),
        None => None,
    };
    let context = resume_context(&runtime, turn_ref, &pending, &summaries);
    let index = index_summary_text(messages.len(), events.len(), pending.len());
    let commands = available_commands(
        session_state,
        runtime.state,
        pending.len() > 0,
        warnings.len() > 0,
        node_accepts_commands(node_presence),
        placement_has_hard_block(&placement),
        provider_available,
    );
    AgentProjection {
        session_thread_id: string_from(session_thread_id),
        project_placement: placement,
        runtime_summary: runtime,
        current_turn: turn,
        pending_approvals: pending,
        active_warnings: warnings,
        recent_turn_summaries: summaries,
        recent_message_refs: message_refs,
        artifact_tree_summary: index,
        available_block_types: block_type_list(),
        available_commands: commands,
        visible_refs: refs,
        source_cause_summary: causes,
        resume_context: context,
        generated_at: crate::system::now_millis(),
    }
}

} // verus!
