//! The node's handling of one command from the control plane, in two steps around the
//! provider's work: what it decides before (replay a command it has seen, or what to
//! run), and what it records after (the events, the runtime states, the outbox and the
//! command's status).
use vstd::prelude::*;

use crate::dispatch::{
    provider_for_command, provider_for_command_spec, provider_update, ref_map_updated,
    remember_runtime_metadata, resume_ref_update, same_but_metadata, seq_base, str_map_updated,
    workspace_path_for_command, workspace_path_for_command_spec, workspace_update,
};
use crate::node_state::{
    apply_runtime_state_projection, command_status_for_events, command_status_spec,
    events_of_command, last_runtime_state, outbox_events_for_command, NodeLocalState,
};
use crate::projection::view_events;
use crate::protocol::{clone_event, opt_view, CommandEnvelope, CommandView, EventEnvelope, EventView};
use crate::retention::{
    enforce_event_outbox_retention, notice_rids, notices_for_overflow, outbox_after_retention,
    seqs_below,
};
use crate::states::{CommandKind, CommandState, RuntimeSessionState};

verus! {

/// The most events a node keeps unacknowledged.
pub const MAX_EVENT_OUTBOX_EVENTS: usize = 1024;

/// What a node answers for a command: its status, the events to send, and whether its
/// durable state changed.
pub struct CommandDispatchOutcome {
    pub status: CommandState,
    pub events_to_send: Vec<EventEnvelope>,
    pub state_changed: bool,
}

/// The first step of handling a command.
pub enum DispatchStart {
    /// The command was handled before: answer as recorded.
    Replay(CommandDispatchOutcome),
    /// A placement command: its workspace is to be inspected.
    Placement,
    /// A runtime command, to be run by the provider named, in the workspace given.
    Runtime { provider_key: String, workspace_path: Option<String> },
}

/// The command is one about a placement rather than a runtime.
pub open spec fn is_placement_command(kind: CommandKind) -> bool {
    kind == CommandKind::ValidateWorkspace || kind == CommandKind::RefreshResourceSnapshot
}

/// The answer recorded for command `c`: its status, and its events still in the outbox.
pub open spec fn recorded_reply(s: NodeLocalState, c: CommandView) -> Option<(CommandState, Seq<EventView>)> {
    match s.command_status.find(c.command_id) {
        Some(st) => Some((st, events_of_command(view_events(s.event_outbox@), c.command_id))),
        None => None,
    }
}

/// Decides what to do with `command`: a command already handled is answered as recorded
/// and changes nothing; a new runtime command first records the provider, workspace and
/// resume reference it names.
pub fn begin_command_dispatch(state: &mut NodeLocalState, command: &CommandEnvelope) -> (r:
    DispatchStart)
    requires
        old(state).wf(),
    ensures
        final(state).wf(),
        recorded_reply(*old(state), command@) matches Some(reply) ==> (r matches DispatchStart::Replay(
            o,
        ) && o.status == reply.0 && view_events(o.events_to_send@) == reply.1 && !o.state_changed
            && *final(state) == *old(state)),
        recorded_reply(*old(state), command@) is None && is_placement_command(command@.kind) ==> (r
            is Placement && *final(state) == *old(state)),
        recorded_reply(*old(state), command@) is None && !is_placement_command(command@.kind) ==> (
        r matches DispatchStart::Runtime { provider_key, workspace_path } && provider_key@
            == provider_for_command_spec(*final(state), command@) && opt_view(workspace_path)
            == workspace_path_for_command_spec(*final(state), command@) && same_but_metadata(
            *old(state),
            *final(state),
        ) && str_map_updated(
            old(state).runtime_providers,
            final(state).runtime_providers,
            command@.runtime_session_id,
            provider_update(command@),
        ) && str_map_updated(
            old(state).runtime_workspace_paths,
            final(state).runtime_workspace_paths,
            command@.runtime_session_id,
            workspace_update(command@),
        ) && ref_map_updated(
            old(state).runtime_provider_resume_refs,
            final(state).runtime_provider_resume_refs,
            command@.runtime_session_id,
            resume_ref_update(command@),
        )),
{
    if let Some(status) = state.command_status.get(command.command_id.as_str()) {
        let events = outbox_events_for_command(&state.event_outbox, command.command_id.as_str());
        return DispatchStart::Replay(
            CommandDispatchOutcome { status: *status, events_to_send: events, state_changed: false },
        );
    }
    if command.kind == CommandKind::ValidateWorkspace || command.kind
        == CommandKind::RefreshResourceSnapshot {
        return DispatchStart::Placement;
    }
    remember_runtime_metadata(state, command);
    let provider_key = provider_for_command(state, command);
    let workspace_path = workspace_path_for_command(state, command);
    DispatchStart::Runtime { provider_key, workspace_path }
}

/// Everything but the runtime numbers and states, the outbox and the command statuses is
/// the same in `a` and `b`.
pub open spec fn same_but_dispatch(a: NodeLocalState, b: NodeLocalState) -> bool {
    &&& a.daemon_installation_id == b.daemon_installation_id
    &&& a.node_id == b.node_id
    &&& a.credential == b.credential
    &&& a.enrollment_id == b.enrollment_id
    &&& a.pairing_code == b.pairing_code
    &&& a.runtime_providers == b.runtime_providers
    &&& a.runtime_workspace_paths == b.runtime_workspace_paths
    &&& a.runtime_transcripts == b.runtime_transcripts
    &&& a.runtime_provider_resume_refs == b.runtime_provider_resume_refs
    &&& a.placement_seqs == b.placement_seqs
}

/// What recording the `events` of command `c` does to state `old`, giving `new` and
/// the answer `status` and `sent`: the events join the outbox and move their runtimes'
/// states; retention bounds the outbox, and its notices follow the events in the
/// answer; the command's status is recorded.
pub open spec fn dispatch_recorded(
    old: NodeLocalState,
    new: NodeLocalState,
    c: CommandView,
    events: Seq<EventView>,
    status: CommandState,
    sent: Seq<EventView>,
) -> bool {
    let o = view_events(old.event_outbox@) + events;
    let max = MAX_EVENT_OUTBOX_EVENTS as int;
    let notices = sent.skip(events.len() as int);
    let ids = notice_rids(notices);
    &&& status == command_status_spec(events)
    &&& sent.len() >= events.len()
    &&& sent.take(events.len() as int) == events
    &&& o.len() <= max ==> notices.len() == 0
    &&& o.len() > max ==> notices_for_overflow(o, max, opt_view(old.node_id), old.runtime_seqs, notices)
    &&& view_events(new.event_outbox@) == outbox_after_retention(o, max, notices)
    &&& forall|k: Seq<char>| #[trigger]
        new.runtime_seqs.find(k) == if ids.contains(k) {
            Some((seq_base(old.runtime_seqs, k) + 1) as i64)
        } else {
            old.runtime_seqs.find(k)
        }
    &&& forall|k: Seq<char>| #[trigger]
        new.runtime_states.find(k) == if ids.contains(k) {
            Some(RuntimeSessionState::Error)
        } else {
            match last_runtime_state(events, k) {
                Some(s) => Some(s),
                None => old.runtime_states.find(k),
            }
        }
    &&& forall|k: Seq<char>| #[trigger]
        new.command_status.find(k) == if k == c.command_id {
            Some(status)
        } else {
            old.command_status.find(k)
        }
    &&& same_but_dispatch(old, new)
}

/// Records the `events` that the provider produced for `command` and answers with the
/// command's status and the events to send.
pub fn complete_command_dispatch(
    state: &mut NodeLocalState,
    command: &CommandEnvelope,
    events: Vec<EventEnvelope>,
) -> (r: CommandDispatchOutcome)
    requires
        old(state).wf(),
        seqs_below(old(state).runtime_seqs, i64::MAX - 1),
    ensures
        final(state).wf(),
        r.state_changed,
        dispatch_recorded(
            *old(state),
            *final(state),
            command@,
            view_events(events@),
            r.status,
            view_events(r.events_to_send@),
        ),
{
    let ghost ev = view_events(events@);
    apply_runtime_state_projection(state, &events);
    let ghost projected = *state;
    let mut i: usize = 0;
    while i < events.len()
        invariant
            i <= events@.len(),
            ev == view_events(events@),
            state.wf(),
            view_events(state.event_outbox@) == view_events(projected.event_outbox@) + ev.take(
                i as int,
            ),
            state.runtime_states == projected.runtime_states,
            state.runtime_seqs == projected.runtime_seqs,
            state.command_status == projected.command_status,
            state.node_id == projected.node_id,
            crate::retention::same_but_retention(projected, *state),
        decreases events@.len() - i,
    {
        let ghost before = view_events(state.event_outbox@);
        state.event_outbox.push(clone_event(&events[i]));
        assert(view_events(state.event_outbox@) =~= before.push(ev[i as int]));
        assert(ev.take(i + 1) =~= ev.take(i as int).push(ev[i as int]));
        i += 1;
    }
    assert(ev.take(events@.len() as int) =~= ev);
    let ghost extended = *state;
    let notices = enforce_event_outbox_retention(state, MAX_EVENT_OUTBOX_EVENTS);
    let ghost nv = view_events(notices@);
    let status = command_status_for_events(&events);
    let ghost before_status = *state;
    state.command_status.insert(crate::text::string_from(command.command_id.as_str()), status);
    let mut events_to_send = events;
    let mut j: usize = 0;
    while j < notices.len()
        invariant
            j <= notices@.len(),
            nv == view_events(notices@),
            view_events(events_to_send@) == ev + nv.take(j as int),
        decreases notices@.len() - j,
    {
        let ghost before = view_events(events_to_send@);
        events_to_send.push(clone_event(&notices[j]));
        assert(view_events(events_to_send@) =~= before.push(nv[j as int]));
        assert(nv.take(j + 1) =~= nv.take(j as int).push(nv[j as int]));
        j += 1;
    }
    proof {
        assert(nv.take(notices@.len() as int) =~= nv);
        let sent = view_events(events_to_send@);
        assert(sent.skip(ev.len() as int) =~= nv);
        assert(sent.take(ev.len() as int) =~= ev);
        let o = view_events(old(state).event_outbox@) + ev;
        assert(view_events(extended.event_outbox@) == o);
        if o.len() <= MAX_EVENT_OUTBOX_EVENTS {
            assert(nv.len() == 0);
            assert(notice_rids(nv) =~= Seq::<Seq<char>>::empty());
        }
    }
    CommandDispatchOutcome { status, events_to_send, state_changed: true }
}

/// The events of one command among `a + b` are its events among `a`, then among `b`.
proof fn lemma_events_of_command_concat(a: Seq<EventView>, b: Seq<EventView>, id: Seq<char>)
    ensures
        events_of_command(a + b, id) == events_of_command(a, id) + events_of_command(b, id),
    decreases b.len(),
{
    if b.len() == 0 {
        assert(a + b =~= a);
        assert(events_of_command(a, id) + events_of_command(b, id) =~= events_of_command(a, id));
    } else {
        lemma_events_of_command_concat(a, b.drop_last(), id);
        assert((a + b).drop_last() =~= a + b.drop_last());
        assert((a + b).last() == b.last());
        let ea = events_of_command(a, id);
        let eb = events_of_command(b.drop_last(), id);
        if b.last().command_id == Some(id) {
            assert((ea + eb).push(b.last()) =~= ea + eb.push(b.last()));
        }
    }
}

/// A command that a node has handled is answered, when it comes again, with the status
/// recorded the first time and the events of it still in the outbox, and nothing
/// changes (`begin_command_dispatch` answers a recorded command with exactly this
/// reply and leaves the state as it is). When the command's events were its only ones
/// in the outbox and retention dropped none, the second answer repeats the first.
pub proof fn lemma_repeated_command_replays(
    old: NodeLocalState,
    new: NodeLocalState,
    c: CommandView,
    events: Seq<EventView>,
    status: CommandState,
    sent: Seq<EventView>,
)
    requires
        dispatch_recorded(old, new, c, events, status, sent),
    ensures
        recorded_reply(new, c) == Some(
            (status, events_of_command(view_events(new.event_outbox@), c.command_id)),
        ),
        status == command_status_spec(events),
        events_of_command(view_events(old.event_outbox@), c.command_id).len() == 0
            && events_of_command(events, c.command_id) == events
            && view_events(old.event_outbox@).len() + events.len() <= MAX_EVENT_OUTBOX_EVENTS
            ==> recorded_reply(new, c) == Some((status, sent)),
{
    assert(new.command_status.find(c.command_id) == Some(status));
    let ov = view_events(old.event_outbox@);
    if events_of_command(ov, c.command_id).len() == 0 && events_of_command(events, c.command_id) == events
        && ov.len() + events.len() <= MAX_EVENT_OUTBOX_EVENTS {
        let o = ov + events;
        assert(sent.skip(events.len() as int).len() == 0);
        assert(sent =~= sent.take(events.len() as int));
        assert(view_events(new.event_outbox@) == o);
        lemma_events_of_command_concat(ov, events, c.command_id);
        assert(events_of_command(o, c.command_id) =~= events);
    }
}

} // verus!
