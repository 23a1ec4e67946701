//! What the control plane does with an event a node reports: a known event changes
//! nothing, one that takes a sequence number already held in its scope is refused, any
//! other is stored, and one that skips numbers leaves its runtime stale and its session
//! degraded.
use vstd::prelude::*;

use crate::policy::{error_parts, AppError, ErrorClass};
use crate::projection::{admit_event, scope_key_spec, stream_gap_reason, stream_gap_reason_spec, EventAdmission};
use crate::protocol::{clone_opt, opt_view, EventEnvelope, EventView};
use crate::states::{RuntimeSessionState, SessionThreadState};
use crate::text::{concat2, string_from};

verus! {

/// The decision on an incoming event.
pub enum AdmissionView {
    Duplicate,
    Conflict(Seq<char>),
    Accept(Option<int>),
}

/// An event whose id is stored is a duplicate; one whose sequence number another event
/// of its scope holds conflicts with that event; any other is accepted, noting the
/// number expected next in its scope when it skipped ahead of it.
pub open spec fn admission_spec(
    seq: int,
    already_stored: bool,
    seq_holder: Option<Seq<char>>,
    max_seq: Option<int>,
) -> AdmissionView {
    if already_stored {
        AdmissionView::Duplicate
    } else if seq_holder is Some {
        AdmissionView::Conflict(seq_holder->0)
    } else {
        let expected = match max_seq {
            Some(m) => m + 1,
            None => 1,
        };
        AdmissionView::Accept(
            if seq > expected {
                Some(expected)
            } else {
                None
            },
        )
    }
}

/// What an event that skipped numbers does: its runtime, if it has one, becomes stale
/// with the gap as the reason, and its session, if it has one, degraded.
pub struct StreamGapMarks {
    pub expected_seq: i64,
    pub runtime_session_id: Option<String>,
    pub runtime_state: RuntimeSessionState,
    pub degraded_reason: String,
    pub session_thread_id: Option<String>,
    pub session_state: SessionThreadState,
}

/// Whether an incoming event is to be stored (and projected and published), and what a
/// gap before it marks.
pub struct EventAcceptance {
    pub store: bool,
    pub stream_gap: Option<StreamGapMarks>,
}

/// `m` marks the gap before event `e`, which arrived when `expected` was due.
pub open spec fn gap_marks_spec(m: StreamGapMarks, e: EventView, expected: int) -> bool {
    &&& m.expected_seq == expected
    &&& opt_view(m.runtime_session_id) == e.runtime_session_id
    &&& m.runtime_state == RuntimeSessionState::Stale
    &&& m.degraded_reason@ == stream_gap_reason_spec(expected, e.seq)
    &&& opt_view(m.session_thread_id) == e.session_thread_id
    &&& m.session_state == SessionThreadState::Degraded
}

/// Handles an event from what the store holds: whether its id is stored, which event
/// holds its sequence number in its scope, and the highest number of that scope. A
/// duplicate is answered without any change; a conflict is refused as a bad request.
pub fn accept_node_event(
    event: &EventEnvelope,
    already_stored: bool,
    seq_holder: Option<String>,
    max_seq: Option<i64>,
) -> (r: Result<EventAcceptance, AppError>)
    requires
        !already_stored && seq_holder is None ==> (max_seq matches Some(m) ==> m < i64::MAX),
    ensures
        ({
            let a = admission_spec(
                event.seq as int,
                already_stored,
                opt_view(seq_holder),
                match max_seq {
                    Some(m) => Some(m as int),
                    None => None,
                },
            );
            &&& (a is Duplicate ==> (r matches Ok(acc) && !acc.store && acc.stream_gap is None))
            &&& (a matches AdmissionView::Conflict(c) ==> (r matches Err(e) && error_parts(e) == (
                ErrorClass::BadRequest,
                "event.seq_conflict"@,
                "Event seq conflicts with "@ + c,
            )))
            &&& (a matches AdmissionView::Accept(g) ==> (r matches Ok(acc) && acc.store && match g {
                None => acc.stream_gap is None,
                Some(x) => acc.stream_gap matches Some(m) && gap_marks_spec(m, event@, x),
            }))
        }),
{
    match admit_event(event.seq, already_stored, seq_holder, max_seq) {
        EventAdmission::Duplicate => Ok(EventAcceptance { store: false, stream_gap: None }),
        EventAdmission::Conflict { conflict_event_id } => {
            let message = concat2("Event seq conflicts with ", conflict_event_id.as_str());
            Err(AppError::BadRequest { code: string_from("event.seq_conflict"), message })
        },
        EventAdmission::Accept { stream_gap } => match stream_gap {
            None => Ok(EventAcceptance { store: true, stream_gap: None }),
            Some(expected) => Ok(
                EventAcceptance {
                    store: true,
                    stream_gap: Some(
                        StreamGapMarks {
                            expected_seq: expected,
                            runtime_session_id: clone_opt(&event.runtime_session_id),
                            runtime_state: RuntimeSessionState::Stale,
                            degraded_reason: stream_gap_reason(expected, event.seq),
                            session_thread_id: clone_opt(&event.session_thread_id),
                            session_state: SessionThreadState::Degraded,
                        },
                    ),
                },
            ),
        },
    }
}

/// An event with this id is in the store.
pub open spec fn stored_in(store: Seq<EventView>, id: Seq<char>) -> bool {
    exists|i: int| 0 <= i < store.len() && (#[trigger] store[i]).event_id == id
}

/// The event of the store that holds number `seq` in the scope with key `key`, if any.
pub open spec fn holder_in(store: Seq<EventView>, key: Seq<char>, seq: int) -> Option<Seq<char>> {
    if exists|i: int|
        0 <= i < store.len() && scope_key_spec((#[trigger] store[i]).scope_ref) == key && store[i].seq
            == seq {
        let i = choose|i: int|
            0 <= i < store.len() && scope_key_spec((#[trigger] store[i]).scope_ref) == key && store[i].seq
                == seq;
        Some(store[i].event_id)
    } else {
        None
    }
}

/// The highest number of the scope with key `key` in the store, if it holds any.
pub open spec fn max_in(store: Seq<EventView>, key: Seq<char>) -> Option<int>
    decreases store.len(),
{
    if store.len() == 0 {
        None
    } else {
        let rest = max_in(store.drop_last(), key);
        let e = store.last();
        if scope_key_spec(e.scope_ref) == key {
            match rest {
                Some(m) => Some(if m < e.seq { e.seq as int } else { m }),
                None => Some(e.seq as int),
            }
        } else {
            rest
        }
    }
}

/// The decision on event `e` against a store of events.
pub open spec fn admission_in(store: Seq<EventView>, e: EventView) -> AdmissionView {
    admission_spec(
        e.seq,
        stored_in(store, e.event_id),
        holder_in(store, scope_key_spec(e.scope_ref), e.seq),
        max_in(store, scope_key_spec(e.scope_ref)),
    )
}

/// The store after event `e` is handled: it gains `e` only when `e` is accepted.
pub open spec fn store_after(store: Seq<EventView>, e: EventView) -> Seq<EventView> {
    if admission_in(store, e) is Accept {
        store.push(e)
    } else {
        store
    }
}

/// Delivering the same event twice is delivering it once: an accepted event is a
/// duplicate when it comes again, so it is neither stored, projected nor published a
/// second time, and the store is left as the first delivery left it.
pub proof fn lemma_redelivered_event_changes_nothing(store: Seq<EventView>, e: EventView)
    ensures
        admission_in(store, e) is Accept ==> admission_in(store_after(store, e), e) is Duplicate,
        store_after(store_after(store, e), e) == store_after(store, e),
{
    if admission_in(store, e) is Accept {
        let s1 = store.push(e);
        assert(s1[store.len() as int] == e);
        assert(stored_in(s1, e.event_id));
    }
}

} // verus!
