//! The bound on a node's outbox of unacknowledged events: when it overflows, the
//! oldest events go, and each runtime that lost events is told so by a runtime error
//! of its own.
use vstd::prelude::*;

use crate::dispatch::{error_payload, error_payload_exec, seq_base};
use crate::node_state::{
    apply_runtime_state_projection, last_runtime_state, next_seq, trim_event_outbox_to_limit,
    NodeLocalState,
};
use crate::order::{insert_sorted, lemma_lex_irreflexive, strictly_sorted};
use crate::projection::view_events;
use crate::protocol::{
    clone_event, clone_opt, opt_view, ActorRef, ActorView, EventEnvelope, EventView, ScopeRef,
    ScopeView,
};
use crate::states::{EventKind, RuntimeSessionState};
use crate::strmap::StrMap;
use crate::text::{string_from, strings_view};

verus! {

/// The first event of `events` that belongs to runtime `rid`.
pub open spec fn first_runtime_event(events: Seq<EventView>, rid: Seq<char>) -> Option<EventView>
    decreases events.len(),
{
    if events.len() == 0 {
        None
    } else {
        match first_runtime_event(events.drop_last(), rid) {
            Some(e) => Some(e),
            None => if events.last().runtime_session_id == Some(rid) {
                Some(events.last())
            } else {
                None
            },
        }
    }
}

/// `a`, or `b` when `a` is absent.
pub open spec fn opt_or(a: Option<Seq<char>>, b: Option<Seq<char>>) -> Option<Seq<char>> {
    match a {
        Some(x) => Some(x),
        None => b,
    }
}

/// The code and message of the error that tells a runtime it lost events.
pub open spec fn retention_payload() -> crate::protocol::JsonView {
    error_payload(
        "node.event_outbox_retention_exceeded"@,
        "Node dropped unacknowledged runtime events because local outbox retention was exceeded"@,
    )
}

/// `e` tells runtime `rid`, of session `sid`, that events of it were dropped: a runtime
/// error from node `nid`, numbered `seq` in the runtime's stream. Its id and its time are
/// fresh and not stated.
pub open spec fn retention_notice(
    e: EventView,
    rid: Seq<char>,
    sid: Option<Seq<char>>,
    nid: Option<Seq<char>>,
    seq: int,
) -> bool {
    &&& e.command_id is None
    &&& e.correlation_id is None
    &&& e.actor_ref == match nid {
        Some(n) => ActorView::Node { node_id: n },
        None => ActorView::Unknown,
    }
    &&& e.scope_ref == ScopeView::Runtime { runtime_session_id: rid }
    &&& e.node_id == nid
    &&& e.runtime_session_id == Some(rid)
    &&& e.session_thread_id == sid
    &&& e.turn_id is None
    &&& e.seq == seq
    &&& e.kind == EventKind::RuntimeError
    &&& e.source_refs.len() == 0
    &&& e.evidence_refs.len() == 0
    &&& e.cause_refs.len() == 0
    &&& e.result_refs.len() == 0
    &&& e.payload == retention_payload()
}

/// The runtime notice for runtime `rid`, numbered next in its stream; the node is this
/// node when it is enrolled, else `event_node_id`.
pub fn runtime_outbox_retention_event(
    state: &mut NodeLocalState,
    runtime_session_id: &str,
    session_thread_id: Option<String>,
    event_node_id: Option<String>,
) -> (e: EventEnvelope)
    requires
        old(state).wf(),
        seq_base(old(state).runtime_seqs, runtime_session_id@) < i64::MAX,
    ensures
        final(state).wf(),
        retention_notice(
            e@,
            runtime_session_id@,
            opt_view(session_thread_id),
            opt_or(opt_view(old(state).node_id), opt_view(event_node_id)),
            seq_base(old(state).runtime_seqs, runtime_session_id@) + 1,
        ),
        forall|k: Seq<char>| #[trigger]
            final(state).runtime_seqs.find(k) == if k == runtime_session_id@ {
                Some((seq_base(old(state).runtime_seqs, k) + 1) as i64)
            } else {
                old(state).runtime_seqs.find(k)
            },
        same_but_seqs(*old(state), *final(state)),
{
    let seq = next_seq(&mut state.runtime_seqs, runtime_session_id);
    let node_id = match &state.node_id {
        Some(n) => Some(n.clone()),
        None => event_node_id,
    };
    let actor_ref = match &node_id {
        Some(n) => ActorRef::Node { node_id: n.clone() },
        None => ActorRef::Unknown,
    };
    let rid = string_from(runtime_session_id);
    EventEnvelope {
        event_id: crate::system::new_uuid(),
        command_id: None,
        correlation_id: None,
        actor_ref,
        scope_ref: ScopeRef::Runtime { runtime_session_id: rid.clone() },
        node_id,
        runtime_session_id: Some(rid),
        session_thread_id,
        turn_id: None,
        seq,
        kind: EventKind::RuntimeError,
        happened_at: crate::system::now_millis(),
        source_refs: Vec::new(),
        evidence_refs: Vec::new(),
        cause_refs: Vec::new(),
        result_refs: Vec::new(),
        payload: error_payload_exec(
            "node.event_outbox_retention_exceeded",
            "Node dropped unacknowledged runtime events because local outbox retention was exceeded",
        ),
    }
}

/// Everything but the runtime sequence numbers is the same in `a` and `b`.
pub open spec fn same_but_seqs(a: NodeLocalState, b: NodeLocalState) -> bool {
    &&& a.daemon_installation_id == b.daemon_installation_id
    &&& a.node_id == b.node_id
    &&& a.credential == b.credential
    &&& a.enrollment_id == b.enrollment_id
    &&& a.pairing_code == b.pairing_code
    &&& a.command_status == b.command_status
    &&& a.event_outbox == b.event_outbox
    &&& a.runtime_providers == b.runtime_providers
    &&& a.runtime_workspace_paths == b.runtime_workspace_paths
    &&& a.runtime_states == b.runtime_states
    &&& a.runtime_transcripts == b.runtime_transcripts
    &&& a.runtime_provider_resume_refs == b.runtime_provider_resume_refs
    &&& a.placement_seqs == b.placement_seqs
}


/// The session and node of the first event of runtime `rid` among `events`.
pub open spec fn first_info(events: Seq<EventView>, rid: Seq<char>) -> Option<
    (Option<Seq<char>>, Option<Seq<char>>),
> {
    match first_runtime_event(events, rid) {
        Some(e) => Some((e.session_thread_id, e.node_id)),
        None => None,
    }
}

pub open spec fn info_find(m: StrMap<(Option<String>, Option<String>)>, k: Seq<char>) -> Option<
    (Option<Seq<char>>, Option<Seq<char>>),
> {
    match m.find(k) {
        Some(v) => Some((opt_view(v.0), opt_view(v.1))),
        None => None,
    }
}

/// The runtimes that `events` belong to, each once and sorted, with the session and
/// node of the first event of each.
fn affected_runtimes(events: &Vec<EventEnvelope>) -> (r: (Vec<String>, StrMap<(Option<String>, Option<String>)>))
    ensures
        r.1.wf(),
        strictly_sorted(strings_view(r.0@)),
        forall|k: Seq<char>| #[trigger]
            strings_view(r.0@).contains(k) <==> first_runtime_event(view_events(events@), k) is Some,
        forall|k: Seq<char>| #[trigger] info_find(r.1, k) == first_info(view_events(events@), k),
{
    let mut ids: Vec<String> = Vec::new();
    let mut info: StrMap<(Option<String>, Option<String>)> = StrMap::new();
    let mut i: usize = 0;
    while i < events.len()
        invariant
            i <= events@.len(),
            info.wf(),
            strictly_sorted(strings_view(ids@)),
            forall|k: Seq<char>| #[trigger]
                strings_view(ids@).contains(k) <==> first_runtime_event(
                    view_events(events@.take(i as int)),
                    k,
                ) is Some,
            forall|k: Seq<char>| #[trigger]
                info_find(info, k) == first_info(view_events(events@.take(i as int)), k),
        decreases events@.len() - i,
    {
        let e = &events[i];
        let ghost prev = view_events(events@.take(i as int));
        let ghost next = view_events(events@.take(i + 1));
        assert(next.drop_last() =~= prev);
        assert(next.last() == e@);
        if let Some(rid) = &e.runtime_session_id {
            if info.get(rid.as_str()).is_none() {
                let ghost info0 = info;
                let ghost ids0 = strings_view(ids@);
                info.insert(rid.clone(), (clone_opt(&e.session_thread_id), clone_opt(&e.node_id)));
                insert_sorted(&mut ids, rid.clone());
                assert forall|k: Seq<char>| #[trigger] info_find(info, k) == first_info(next, k) by {
                    assert(info_find(info0, k) == first_info(prev, k));
                }
                assert forall|k: Seq<char>| #[trigger]
                    strings_view(ids@).contains(k) <==> first_runtime_event(next, k) is Some by {
                    assert(ids0.contains(k) <==> first_runtime_event(prev, k) is Some);
                    assert(info_find(info0, k) == first_info(prev, k));
                }
            } else {
                assert forall|k: Seq<char>| #[trigger] info_find(info, k) == first_info(next, k) by {
                    assert(info_find(info, k) == first_info(prev, k));
                }
                assert forall|k: Seq<char>| #[trigger]
                    strings_view(ids@).contains(k) <==> first_runtime_event(next, k) is Some by {
                    assert(strings_view(ids@).contains(k) <==> first_runtime_event(prev, k) is Some);
                    assert(info_find(info, k) == first_info(prev, k));
                }
            }
        } else {
            assert forall|k: Seq<char>| #[trigger] info_find(info, k) == first_info(next, k) by {
                assert(info_find(info, k) == first_info(prev, k));
            }
            assert forall|k: Seq<char>| #[trigger]
                strings_view(ids@).contains(k) <==> first_runtime_event(next, k) is Some by {
                assert(strings_view(ids@).contains(k) <==> first_runtime_event(prev, k) is Some);
            }
        }
        i += 1;
    }
    assert(events@.take(events@.len() as int) =~= events@);
    (ids, info)
}


/// `n` is the notice for runtime `rid` after `dropped` lost events of it: it carries
/// the session and node of the first dropped event of that runtime, the node being this
/// node's own id when it has one.
pub open spec fn notice_for(
    dropped: Seq<EventView>,
    node_id: Option<Seq<char>>,
    seqs: StrMap<i64>,
    n: EventView,
    rid: Seq<char>,
) -> bool {
    match first_runtime_event(dropped, rid) {
        Some(f) => retention_notice(
            n,
            rid,
            f.session_thread_id,
            opt_or(node_id, f.node_id),
            seq_base(seqs, rid) + 1,
        ),
        None => false,
    }
}

/// The runtimes that a list of notices speak to, in order.
pub open spec fn notice_rids(notices: Seq<EventView>) -> Seq<Seq<char>> {
    notices.map_values(
        |e: EventView|
            match e.runtime_session_id {
                Some(r) => r,
                None => Seq::empty(),
            },
    )
}

/// Every recorded runtime sequence number is at most `limit`.
pub open spec fn seqs_below(seqs: StrMap<i64>, limit: int) -> bool {
    forall|k: Seq<char>| #[trigger] seqs.find(k) matches Some(s) ==> s <= limit
}

/// Everything but the runtime numbers, the runtime states and the outbox is the same.
pub open spec fn same_but_retention(a: NodeLocalState, b: NodeLocalState) -> bool {
    &&& a.daemon_installation_id == b.daemon_installation_id
    &&& a.node_id == b.node_id
    &&& a.credential == b.credential
    &&& a.enrollment_id == b.enrollment_id
    &&& a.pairing_code == b.pairing_code
    &&& a.command_status == b.command_status
    &&& a.runtime_providers == b.runtime_providers
    &&& a.runtime_workspace_paths == b.runtime_workspace_paths
    &&& a.runtime_transcripts == b.runtime_transcripts
    &&& a.runtime_provider_resume_refs == b.runtime_provider_resume_refs
    &&& a.placement_seqs == b.placement_seqs
}

/// `notices` are what retention emits when the outbox `o` overflows `max` events: each
/// runtime that lost events, once and in sorted order, gets a notice numbered next in
/// its stream.
pub open spec fn notices_for_overflow(
    o: Seq<EventView>,
    max: int,
    node_id: Option<Seq<char>>,
    seqs: StrMap<i64>,
    notices: Seq<EventView>,
) -> bool {
    let dropped = o.take(o.len() - max);
    let ids = notice_rids(notices);
    &&& strictly_sorted(ids)
    &&& forall|k: Seq<char>| #[trigger] ids.contains(k) <==> first_runtime_event(dropped, k) is Some
    &&& forall|i: int|
        0 <= i < notices.len() ==> notice_for(dropped, node_id, seqs, #[trigger] notices[i], ids[i])
}

/// The outbox `o` after retention to `max` events with `notices`: the newest `max`
/// events of what is left after the oldest went and the notices joined.
pub open spec fn outbox_after_retention(o: Seq<EventView>, max: int, notices: Seq<EventView>) -> Seq<
    EventView,
> {
    if max == 0 || o.len() <= max {
        o
    } else {
        (o.skip(o.len() - max) + notices).skip(notices.len() as int)
    }
}

/// Retention leaves an outbox that was over its limit with exactly `max` events, and
/// the notices it appended, when there are no more of them than the limit, are the
/// newest of those.
pub proof fn lemma_retention_keeps_limit(o: Seq<EventView>, max: int, notices: Seq<EventView>)
    requires
        max > 0,
        o.len() > max,
    ensures
        outbox_after_retention(o, max, notices).len() == max,
        notices.len() <= max ==> outbox_after_retention(o, max, notices).skip(max - notices.len())
            == notices,
{
    let kept = o.skip(o.len() - max) + notices;
    assert(kept.len() == max + notices.len());
    if notices.len() <= max {
        assert(kept.skip(notices.len() as int).skip(max - notices.len()) =~= notices);
    }
}

/// What retention does to an outbox longer than `max` events: the oldest events are
/// dropped down to `max`; each runtime that lost events, once and in sorted order, gets a
/// notice numbered next in its stream, which leaves it in error; the notices join the
/// outbox, which is cut to its newest `max` events again.
pub open spec fn retention_applied(
    old: NodeLocalState,
    new: NodeLocalState,
    notices: Seq<EventView>,
    max: int,
) -> bool {
    let o = view_events(old.event_outbox@);
    let ids = notice_rids(notices);
    &&& notices_for_overflow(o, max, opt_view(old.node_id), old.runtime_seqs, notices)
    &&& forall|k: Seq<char>| #[trigger]
        new.runtime_seqs.find(k) == if ids.contains(k) {
            Some((seq_base(old.runtime_seqs, k) + 1) as i64)
        } else {
            old.runtime_seqs.find(k)
        }
    &&& forall|k: Seq<char>| #[trigger]
        new.runtime_states.find(k) == if ids.contains(k) {
            Some(RuntimeSessionState::Error)
        } else {
            old.runtime_states.find(k)
        }
    &&& view_events(new.event_outbox@) == outbox_after_retention(o, max, notices)
    &&& same_but_retention(old, new)
}

/// Bounds the outbox to `max_events` events (no bound when it is zero), and returns the
/// notices of the runtimes that lost events.
pub fn enforce_event_outbox_retention(state: &mut NodeLocalState, max_events: usize) -> (r: Vec<
    EventEnvelope,
>)
    requires
        old(state).wf(),
        seqs_below(old(state).runtime_seqs, i64::MAX - 1),
    ensures
        final(state).wf(),
        max_events == 0 || old(state).event_outbox@.len() <= max_events ==> (r@.len() == 0
            && *final(state) == *old(state)),
        max_events > 0 && old(state).event_outbox@.len() > max_events ==> retention_applied(
            *old(state),
            *final(state),
            view_events(r@),
            max_events as int,
        ),
{
    if max_events == 0 || state.event_outbox.len() <= max_events {
        return Vec::new();
    }
    let ghost o = view_events(old(state).event_outbox@);
    let overflow = state.event_outbox.len() - max_events;
    let mut dropped = state.event_outbox.split_off(overflow);
    core::mem::swap(&mut dropped, &mut state.event_outbox);
    let ghost d = view_events(dropped@);
    let ghost kept = view_events(state.event_outbox@);
    assert(d =~= o.take(o.len() - max_events));
    assert(kept =~= o.skip(o.len() - max_events));
    let (ids, info) = affected_runtimes(&dropped);
    let ghost mid = *state;
    let ghost sids = strings_view(ids@);
    let mut notices: Vec<EventEnvelope> = Vec::new();
    let mut j: usize = 0;
    while j < ids.len()
        invariant
            j <= ids@.len(),
            sids == strings_view(ids@),
            strictly_sorted(sids),
            forall|k: Seq<char>| #[trigger] sids.contains(k) <==> first_runtime_event(d, k) is Some,
            forall|k: Seq<char>| #[trigger] info_find(info, k) == first_info(d, k),
            state.wf(),
            seqs_below(old(state).runtime_seqs, i64::MAX - 1),
            mid.runtime_seqs == old(state).runtime_seqs,
            mid.node_id == old(state).node_id,
            same_but_seqs(mid, *state),
            forall|k: Seq<char>| #[trigger]
                state.runtime_seqs.find(k) == if sids.take(j as int).contains(k) {
                    Some((seq_base(old(state).runtime_seqs, k) + 1) as i64)
                } else {
                    old(state).runtime_seqs.find(k)
                },
            notices@.len() == j,
            notice_rids(view_events(notices@)) == sids.take(j as int),
            forall|m: int|
                0 <= m < j ==> notice_for(
                    d,
                    opt_view(old(state).node_id),
                    old(state).runtime_seqs,
                    #[trigger] view_events(notices@)[m],
                    sids[m],
                ),
            forall|k: Seq<char>| #[trigger]
                last_runtime_state(view_events(notices@), k) == if sids.take(j as int).contains(k) {
                    Some(RuntimeSessionState::Error)
                } else {
                    None
                },
        decreases ids@.len() - j,
    {
        let rid = &ids[j];
        let ghost r = rid@;
        assert(sids[j as int] == r);
        assert(sids.contains(r));
        proof {
            if sids.take(j as int).contains(r) {
                let m = choose|m: int| 0 <= m < j && sids.take(j as int)[m] == r;
                assert(crate::order::lex_lt(sids[m], sids[j as int]));
                lemma_lex_irreflexive(r);
            }
        }
        let (sid, nid) = match info.get(rid.as_str()) {
            Some(v) => (clone_opt(&v.0), clone_opt(&v.1)),
            None => (None, None),
        };
        assert(info_find(info, r) == first_info(d, r));
        let ghost fr = first_runtime_event(d, r)->0;
        let ghost sidv = opt_view(sid);
        let ghost nidv = opt_view(nid);
        assert(sidv == fr.session_thread_id && nidv == fr.node_id);
        assert(state.runtime_seqs.find(r) == old(state).runtime_seqs.find(r));
        let ghost before = *state;
        let ghost nv = view_events(notices@);
        let e = runtime_outbox_retention_event(state, rid.as_str(), sid, nid);
        notices.push(e);
        proof {
            let nv2 = view_events(notices@);
            assert(nv2 =~= nv.push(e@));
            assert(sids.take(j + 1) =~= sids.take(j as int).push(r));
            assert(notice_rids(nv2) =~= notice_rids(nv).push(r));
            assert forall|k: Seq<char>| #[trigger] state.runtime_seqs.find(k) == if sids.take(
                j + 1,
            ).contains(k) {
                Some((seq_base(old(state).runtime_seqs, k) + 1) as i64)
            } else {
                old(state).runtime_seqs.find(k)
            } by {
                crate::text::lemma_contains_after_push(sids.take(j as int), r, k);
                assert(before.runtime_seqs.find(k) == if sids.take(j as int).contains(k) {
                    Some((seq_base(old(state).runtime_seqs, k) + 1) as i64)
                } else {
                    old(state).runtime_seqs.find(k)
                });
            }
            assert forall|k: Seq<char>| #[trigger] last_runtime_state(nv2, k) == if sids.take(
                j + 1,
            ).contains(k) {
                Some(RuntimeSessionState::Error)
            } else {
                None
            } by {
                crate::text::lemma_contains_after_push(sids.take(j as int), r, k);
                assert(nv2.drop_last() =~= nv);
                assert(last_runtime_state(nv, k) == if sids.take(j as int).contains(k) {
                    Some(RuntimeSessionState::Error)
                } else {
                    None
                });
            }
            assert forall|m: int| 0 <= m < j + 1 implies notice_for(
                d,
                opt_view(old(state).node_id),
                old(state).runtime_seqs,
                #[trigger] view_events(notices@)[m],
                sids[m],
            ) by {
                if m < j {
                    assert(nv2[m] == nv[m]);
                } else {
                    assert(nv2[m] == e@);
                    assert(sids[m] == r);
                    assert(before.node_id == old(state).node_id);
                    assert(first_runtime_event(d, r) == Some(fr));
                    assert(seq_base(before.runtime_seqs, r) == seq_base(old(state).runtime_seqs, r));
                    assert(retention_notice(e@, r, fr.session_thread_id, opt_or(opt_view(old(state).node_id), fr.node_id), seq_base(old(state).runtime_seqs, r) + 1));
                }
            }
        }
        j += 1;
    }
    assert(sids.take(ids@.len() as int) =~= sids);
    let ghost nvf = view_events(notices@);
    if notices.len() == 0 {
        proof {
            assert(nvf =~= Seq::<EventView>::empty());
            assert((kept + nvf).skip(0) =~= kept);
            assert forall|k: Seq<char>| #[trigger] state.runtime_states.find(k) == if notice_rids(
                nvf,
            ).contains(k) {
                Some(RuntimeSessionState::Error)
            } else {
                old(state).runtime_states.find(k)
            } by {
            }
        }
        trim_event_outbox_to_limit(&mut state.event_outbox, max_events);
        return notices;
    }
    let ghost pre_projection = *state;
    apply_runtime_state_projection(state, &notices);
    let ghost pre_extend = *state;
    let mut m: usize = 0;
    while m < notices.len()
        invariant
            m <= notices@.len(),
            nvf == view_events(notices@),
            view_events(state.event_outbox@) == kept + nvf.take(m as int),
            state.wf(),
            state.runtime_seqs == pre_extend.runtime_seqs,
            state.runtime_states == pre_extend.runtime_states,
            same_but_retention(pre_extend, *state),
        decreases notices@.len() - m,
    {
        let ghost before = view_events(state.event_outbox@);
        state.event_outbox.push(clone_event(&notices[m]));
        assert(view_events(state.event_outbox@) =~= before.push(nvf[m as int]));
        assert(nvf.take(m + 1) =~= nvf.take(m as int).push(nvf[m as int]));
        m += 1;
    }
    assert(nvf.take(notices@.len() as int) =~= nvf);
    let ghost full = view_events(state.event_outbox@);
    trim_event_outbox_to_limit(&mut state.event_outbox, max_events);
    proof {
        assert(view_events(state.event_outbox@) =~= full.skip(nvf.len() as int));
        assert(notice_rids(nvf) == sids);
        assert forall|k: Seq<char>| #[trigger] state.runtime_states.find(k) == if sids.contains(k) {
            Some(RuntimeSessionState::Error)
        } else {
            old(state).runtime_states.find(k)
        } by {
            assert(last_runtime_state(nvf, k) == if sids.contains(k) {
                Some(RuntimeSessionState::Error)
            } else {
                None
            });
        }
    }
    notices
}

} // verus!
