//! The states and kinds that the control plane and the node exchange, with the
//! names under which they are stored.
use vstd::prelude::*;

use crate::text::{chars_of, str_eq};

verus! {

/// Lifecycle state of a provider runtime session.
#[derive(Clone, Copy, PartialEq, Eq, Debug, Structural)]
pub enum RuntimeSessionState {
    Starting,
    Ready,
    Running,
    Blocked,
    Stopping,
    Stopped,
    Interrupted,
    Resuming,
    Stale,
    Error,
    Expired,
}

/// The name under which a `RuntimeSessionState` is stored.
pub open spec fn runtime_state_name(value: RuntimeSessionState) -> Seq<char> {
    match value {
        RuntimeSessionState::Starting => "starting"@,
        RuntimeSessionState::Ready => "ready"@,
        RuntimeSessionState::Running => "running"@,
        RuntimeSessionState::Blocked => "blocked"@,
        RuntimeSessionState::Stopping => "stopping"@,
        RuntimeSessionState::Stopped => "stopped"@,
        RuntimeSessionState::Interrupted => "interrupted"@,
        RuntimeSessionState::Resuming => "resuming"@,
        RuntimeSessionState::Stale => "stale"@,
        RuntimeSessionState::Error => "error"@,
        RuntimeSessionState::Expired => "expired"@,
    }
}

/// The stored name of `value`.
pub fn format_runtime_state(value: RuntimeSessionState) -> (r: &'static str)
    ensures
        r@ == runtime_state_name(value),
{
    match value {
        RuntimeSessionState::Starting => "starting",
        RuntimeSessionState::Ready => "ready",
        RuntimeSessionState::Running => "running",
        RuntimeSessionState::Blocked => "blocked",
        RuntimeSessionState::Stopping => "stopping",
        RuntimeSessionState::Stopped => "stopped",
        RuntimeSessionState::Interrupted => "interrupted",
        RuntimeSessionState::Resuming => "resuming",
        RuntimeSessionState::Stale => "stale",
        RuntimeSessionState::Error => "error",
        RuntimeSessionState::Expired => "expired",
    }
}

/// The `RuntimeSessionState` stored under `name`; an unknown name reads as `Starting`.
pub open spec fn runtime_state_from_name(name: Seq<char>) -> RuntimeSessionState {
    if name == "ready"@ {
        RuntimeSessionState::Ready
    } else if name == "running"@ {
        RuntimeSessionState::Running
    } else if name == "blocked"@ {
        RuntimeSessionState::Blocked
    } else if name == "stopping"@ {
        RuntimeSessionState::Stopping
    } else if name == "stopped"@ {
        RuntimeSessionState::Stopped
    } else if name == "interrupted"@ {
        RuntimeSessionState::Interrupted
    } else if name == "resuming"@ {
        RuntimeSessionState::Resuming
    } else if name == "stale"@ {
        RuntimeSessionState::Stale
    } else if name == "error"@ {
        RuntimeSessionState::Error
    } else if name == "expired"@ {
        RuntimeSessionState::Expired
    } else {
        RuntimeSessionState::Starting
    }
}

/// Reads a stored `RuntimeSessionState` name; an unknown name reads as `Starting`.
pub fn parse_runtime_state(value: &str) -> (r: RuntimeSessionState)
    ensures
        r == runtime_state_from_name(value@),
{
    if str_eq(value, "ready") {
        RuntimeSessionState::Ready
    } else if str_eq(value, "running") {
        RuntimeSessionState::Running
    } else if str_eq(value, "blocked") {
        RuntimeSessionState::Blocked
    } else if str_eq(value, "stopping") {
        RuntimeSessionState::Stopping
    } else if str_eq(value, "stopped") {
        RuntimeSessionState::Stopped
    } else if str_eq(value, "interrupted") {
        RuntimeSessionState::Interrupted
    } else if str_eq(value, "resuming") {
        RuntimeSessionState::Resuming
    } else if str_eq(value, "stale") {
        RuntimeSessionState::Stale
    } else if str_eq(value, "error") {
        RuntimeSessionState::Error
    } else if str_eq(value, "expired") {
        RuntimeSessionState::Expired
    } else {
        RuntimeSessionState::Starting
    }
}

/// Reading back the stored name of a `RuntimeSessionState` gives the same value.
pub proof fn lemma_runtime_state_round_trip(value: RuntimeSessionState)
    ensures
        runtime_state_from_name(runtime_state_name(value)) == value,
{
    reveal_strlit("starting");
    reveal_strlit("ready");
    reveal_strlit("running");
    reveal_strlit("blocked");
    reveal_strlit("stopping");
    reveal_strlit("stopped");
    reveal_strlit("interrupted");
    reveal_strlit("resuming");
    reveal_strlit("stale");
    reveal_strlit("error");
    reveal_strlit("expired");
    match value {
        RuntimeSessionState::Starting => {
            assert("starting"@.len() != "ready"@.len());
            assert("starting"@.len() != "running"@.len());
            assert("starting"@.len() != "blocked"@.len());
            assert("starting"@[2] != "stopping"@[2]);
            assert("starting"@.len() != "stopped"@.len());
            assert("starting"@.len() != "interrupted"@.len());
            assert("starting"@[0] != "resuming"@[0]);
            assert("starting"@.len() != "stale"@.len());
            assert("starting"@.len() != "error"@.len());
            assert("starting"@.len() != "expired"@.len());
        },
        RuntimeSessionState::Ready => {
            assert("ready"@.len() != "starting"@.len());
            assert("ready"@.len() != "running"@.len());
            assert("ready"@.len() != "blocked"@.len());
            assert("ready"@.len() != "stopping"@.len());
            assert("ready"@.len() != "stopped"@.len());
            assert("ready"@.len() != "interrupted"@.len());
            assert("ready"@.len() != "resuming"@.len());
            assert("ready"@[0] != "stale"@[0]);
            assert("ready"@[0] != "error"@[0]);
            assert("ready"@.len() != "expired"@.len());
        },
        RuntimeSessionState::Running => {
            assert("running"@.len() != "starting"@.len());
            assert("running"@.len() != "ready"@.len());
            assert("running"@[0] != "blocked"@[0]);
            assert("running"@.len() != "stopping"@.len());
            assert("running"@[0] != "stopped"@[0]);
            assert("running"@.len() != "interrupted"@.len());
            assert("running"@.len() != "resuming"@.len());
            assert("running"@.len() != "stale"@.len());
            assert("running"@.len() != "error"@.len());
            assert("running"@[0] != "expired"@[0]);
        },
        RuntimeSessionState::Blocked => {
            assert("blocked"@.len() != "starting"@.len());
            assert("blocked"@.len() != "ready"@.len());
            assert("blocked"@[0] != "running"@[0]);
            assert("blocked"@.len() != "stopping"@.len());
            assert("blocked"@[0] != "stopped"@[0]);
            assert("blocked"@.len() != "interrupted"@.len());
            assert("blocked"@.len() != "resuming"@.len());
            assert("blocked"@.len() != "stale"@.len());
            assert("blocked"@.len() != "error"@.len());
            assert("blocked"@[0] != "expired"@[0]);
        },
        RuntimeSessionState::Stopping => {
            assert("stopping"@[2] != "starting"@[2]);
            assert("stopping"@.len() != "ready"@.len());
            assert("stopping"@.len() != "running"@.len());
            assert("stopping"@.len() != "blocked"@.len());
            assert("stopping"@.len() != "stopped"@.len());
            assert("stopping"@.len() != "interrupted"@.len());
            assert("stopping"@[0] != "resuming"@[0]);
            assert("stopping"@.len() != "stale"@.len());
            assert("stopping"@.len() != "error"@.len());
            assert("stopping"@.len() != "expired"@.len());
        },
        RuntimeSessionState::Stopped => {
            assert("stopped"@.len() != "starting"@.len());
            assert("stopped"@.len() != "ready"@.len());
            assert("stopped"@[0] != "running"@[0]);
            assert("stopped"@[0] != "blocked"@[0]);
            assert("stopped"@.len() != "stopping"@.len());
            assert("stopped"@.len() != "interrupted"@.len());
            assert("stopped"@.len() != "resuming"@.len());
            assert("stopped"@.len() != "stale"@.len());
            assert("stopped"@.len() != "error"@.len());
            assert("stopped"@[0] != "expired"@[0]);
        },
        RuntimeSessionState::Interrupted => {
            assert("interrupted"@.len() != "starting"@.len());
            assert("interrupted"@.len() != "ready"@.len());
            assert("interrupted"@.len() != "running"@.len());
            assert("interrupted"@.len() != "blocked"@.len());
            assert("interrupted"@.len() != "stopping"@.len());
            assert("interrupted"@.len() != "stopped"@.len());
            assert("interrupted"@.len() != "resuming"@.len());
            assert("interrupted"@.len() != "stale"@.len());
            assert("interrupted"@.len() != "error"@.len());
            assert("interrupted"@.len() != "expired"@.len());
        },
        RuntimeSessionState::Resuming => {
            assert("resuming"@[0] != "starting"@[0]);
            assert("resuming"@.len() != "ready"@.len());
            assert("resuming"@.len() != "running"@.len());
            assert("resuming"@.len() != "blocked"@.len());
            assert("resuming"@[0] != "stopping"@[0]);
            assert("resuming"@.len() != "stopped"@.len());
            assert("resuming"@.len() != "interrupted"@.len());
            assert("resuming"@.len() != "stale"@.len());
            assert("resuming"@.len() != "error"@.len());
            assert("resuming"@.len() != "expired"@.len());
        },
        RuntimeSessionState::Stale => {
            assert("stale"@.len() != "starting"@.len());
            assert("stale"@[0] != "ready"@[0]);
            assert("stale"@.len() != "running"@.len());
            assert("stale"@.len() != "blocked"@.len());
            assert("stale"@.len() != "stopping"@.len());
            assert("stale"@.len() != "stopped"@.len());
            assert("stale"@.len() != "interrupted"@.len());
            assert("stale"@.len() != "resuming"@.len());
            assert("stale"@[0] != "error"@[0]);
            assert("stale"@.len() != "expired"@.len());
        },
        RuntimeSessionState::Error => {
            assert("error"@.len() != "starting"@.len());
            assert("error"@[0] != "ready"@[0]);
            assert("error"@.len() != "running"@.len());
            assert("error"@.len() != "blocked"@.len());
            assert("error"@.len() != "stopping"@.len());
            assert("error"@.len() != "stopped"@.len());
            assert("error"@.len() != "interrupted"@.len());
            assert("error"@.len() != "resuming"@.len());
            assert("error"@[0] != "stale"@[0]);
            assert("error"@.len() != "expired"@.len());
        },
        RuntimeSessionState::Expired => {
            assert("expired"@.len() != "starting"@.len());
            assert("expired"@.len() != "ready"@.len());
            assert("expired"@[0] != "running"@[0]);
            assert("expired"@[0] != "blocked"@[0]);
            assert("expired"@.len() != "stopping"@.len());
            assert("expired"@[0] != "stopped"@[0]);
            assert("expired"@.len() != "interrupted"@.len());
            assert("expired"@.len() != "resuming"@.len());
            assert("expired"@.len() != "stale"@.len());
            assert("expired"@.len() != "error"@.len());
        },
    }
}

/// State of a session thread as the control plane keeps it.
#[derive(Clone, Copy, PartialEq, Eq, Debug, Structural)]
pub enum SessionThreadState {
    Created,
    Active,
    Detached,
    Stopped,
    Degraded,
}

/// The name under which a `SessionThreadState` is stored.
pub open spec fn session_state_name(value: SessionThreadState) -> Seq<char> {
    match value {
        SessionThreadState::Created => "created"@,
        SessionThreadState::Active => "active"@,
        SessionThreadState::Detached => "detached"@,
        SessionThreadState::Stopped => "stopped"@,
        SessionThreadState::Degraded => "degraded"@,
    }
}

/// The stored name of `value`.
pub fn format_session_state(value: SessionThreadState) -> (r: &'static str)
    ensures
        r@ == session_state_name(value),
{
    match value {
        SessionThreadState::Created => "created",
        SessionThreadState::Active => "active",
        SessionThreadState::Detached => "detached",
        SessionThreadState::Stopped => "stopped",
        SessionThreadState::Degraded => "degraded",
    }
}

/// The `SessionThreadState` stored under `name`; an unknown name reads as `Created`.
pub open spec fn session_state_from_name(name: Seq<char>) -> SessionThreadState {
    if name == "active"@ {
        SessionThreadState::Active
    } else if name == "detached"@ {
        SessionThreadState::Detached
    } else if name == "stopped"@ {
        SessionThreadState::Stopped
    } else if name == "degraded"@ {
        SessionThreadState::Degraded
    } else {
        SessionThreadState::Created
    }
}

/// Reads a stored `SessionThreadState` name; an unknown name reads as `Created`.
pub fn parse_session_state(value: &str) -> (r: SessionThreadState)
    ensures
        r == session_state_from_name(value@),
{
    if str_eq(value, "active") {
        SessionThreadState::Active
    } else if str_eq(value, "detached") {
        SessionThreadState::Detached
    } else if str_eq(value, "stopped") {
        SessionThreadState::Stopped
    } else if str_eq(value, "degraded") {
        SessionThreadState::Degraded
    } else {
        SessionThreadState::Created
    }
}

/// Reading back the stored name of a `SessionThreadState` gives the same value.
pub proof fn lemma_session_state_round_trip(value: SessionThreadState)
    ensures
        session_state_from_name(session_state_name(value)) == value,
{
    reveal_strlit("created");
    reveal_strlit("active");
    reveal_strlit("detached");
    reveal_strlit("stopped");
    reveal_strlit("degraded");
    match value {
        SessionThreadState::Created => {
            assert("created"@.len() != "active"@.len());
            assert("created"@.len() != "detached"@.len());
            assert("created"@[0] != "stopped"@[0]);
            assert("created"@.len() != "degraded"@.len());
        },
        SessionThreadState::Active => {
            assert("active"@.len() != "created"@.len());
            assert("active"@.len() != "detached"@.len());
            assert("active"@.len() != "stopped"@.len());
            assert("active"@.len() != "degraded"@.len());
        },
        SessionThreadState::Detached => {
            assert("detached"@.len() != "created"@.len());
            assert("detached"@.len() != "active"@.len());
            assert("detached"@.len() != "stopped"@.len());
            assert("detached"@[2] != "degraded"@[2]);
        },
        SessionThreadState::Stopped => {
            assert("stopped"@[0] != "created"@[0]);
            assert("stopped"@.len() != "active"@.len());
            assert("stopped"@.len() != "detached"@.len());
            assert("stopped"@.len() != "degraded"@.len());
        },
        SessionThreadState::Degraded => {
            assert("degraded"@.len() != "created"@.len());
            assert("degraded"@.len() != "active"@.len());
            assert("degraded"@[2] != "detached"@[2]);
            assert("degraded"@.len() != "stopped"@.len());
        },
    }
}

/// Reachability of a node as heartbeats and revocation decide it.
#[derive(Clone, Copy, PartialEq, Eq, Debug, Structural)]
pub enum NodePresence {
    Reachable,
    Stale,
    Offline,
    Revoked,
}

/// The name under which a `NodePresence` is stored.
pub open spec fn presence_name(value: NodePresence) -> Seq<char> {
    match value {
        NodePresence::Reachable => "reachable"@,
        NodePresence::Stale => "stale"@,
        NodePresence::Offline => "offline"@,
        NodePresence::Revoked => "revoked"@,
    }
}

/// The stored name of `value`.
pub fn format_presence(value: NodePresence) -> (r: &'static str)
    ensures
        r@ == presence_name(value),
{
    match value {
        NodePresence::Reachable => "reachable",
        NodePresence::Stale => "stale",
        NodePresence::Offline => "offline",
        NodePresence::Revoked => "revoked",
    }
}

/// The `NodePresence` stored under `name`; an unknown name reads as `Reachable`.
pub open spec fn presence_from_name(name: Seq<char>) -> NodePresence {
    if name == "stale"@ {
        NodePresence::Stale
    } else if name == "offline"@ {
        NodePresence::Offline
    } else if name == "revoked"@ {
        NodePresence::Revoked
    } else {
        NodePresence::Reachable
    }
}

/// Reads a stored `NodePresence` name; an unknown name reads as `Reachable`.
pub fn parse_presence(value: &str) -> (r: NodePresence)
    ensures
        r == presence_from_name(value@),
{
    if str_eq(value, "stale") {
        NodePresence::Stale
    } else if str_eq(value, "offline") {
        NodePresence::Offline
    } else if str_eq(value, "revoked") {
        NodePresence::Revoked
    } else {
        NodePresence::Reachable
    }
}

/// Reading back the stored name of a `NodePresence` gives the same value.
pub proof fn lemma_presence_round_trip(value: NodePresence)
    ensures
        presence_from_name(presence_name(value)) == value,
{
    reveal_strlit("reachable");
    reveal_strlit("stale");
    reveal_strlit("offline");
    reveal_strlit("revoked");
    match value {
        NodePresence::Reachable => {
            assert("reachable"@.len() != "stale"@.len());
            assert("reachable"@.len() != "offline"@.len());
            assert("reachable"@.len() != "revoked"@.len());
        },
        NodePresence::Stale => {
            assert("stale"@.len() != "reachable"@.len());
            assert("stale"@.len() != "offline"@.len());
            assert("stale"@.len() != "revoked"@.len());
        },
        NodePresence::Offline => {
            assert("offline"@.len() != "reachable"@.len());
            assert("offline"@.len() != "stale"@.len());
            assert("offline"@[0] != "revoked"@[0]);
        },
        NodePresence::Revoked => {
            assert("revoked"@.len() != "reachable"@.len());
            assert("revoked"@.len() != "stale"@.len());
            assert("revoked"@[0] != "offline"@[0]);
        },
    }
}

/// Validation state of a workspace placement.
#[derive(Clone, Copy, PartialEq, Eq, Debug, Structural)]
pub enum PlacementState {
    Pending,
    Validated,
    Missing,
    ReadOnly,
    Error,
}

/// The name under which a `PlacementState` is stored.
pub open spec fn placement_state_name(value: PlacementState) -> Seq<char> {
    match value {
        PlacementState::Pending => "pending"@,
        PlacementState::Validated => "validated"@,
        PlacementState::Missing => "missing"@,
        PlacementState::ReadOnly => "read_only"@,
        PlacementState::Error => "error"@,
    }
}

/// The stored name of `value`.
pub fn format_placement_state(value: PlacementState) -> (r: &'static str)
    ensures
        r@ == placement_state_name(value),
{
    match value {
        PlacementState::Pending => "pending",
        PlacementState::Validated => "validated",
        PlacementState::Missing => "missing",
        PlacementState::ReadOnly => "read_only",
        PlacementState::Error => "error",
    }
}

/// The `PlacementState` stored under `name`; an unknown name reads as `Pending`.
pub open spec fn placement_state_from_name(name: Seq<char>) -> PlacementState {
    if name == "validated"@ {
        PlacementState::Validated
    } else if name == "missing"@ {
        PlacementState::Missing
    } else if name == "read_only"@ {
        PlacementState::ReadOnly
    } else if name == "error"@ {
        PlacementState::Error
    } else {
        PlacementState::Pending
    }
}

/// Reads a stored `PlacementState` name; an unknown name reads as `Pending`.
pub fn parse_placement_state(value: &str) -> (r: PlacementState)
    ensures
        r == placement_state_from_name(value@),
{
    if str_eq(value, "validated") {
        PlacementState::Validated
    } else if str_eq(value, "missing") {
        PlacementState::Missing
    } else if str_eq(value, "read_only") {
        PlacementState::ReadOnly
    } else if str_eq(value, "error") {
        PlacementState::Error
    } else {
        PlacementState::Pending
    }
}

/// Reading back the stored name of a `PlacementState` gives the same value.
pub proof fn lemma_placement_state_round_trip(value: PlacementState)
    ensures
        placement_state_from_name(placement_state_name(value)) == value,
{
    reveal_strlit("pending");
    reveal_strlit("validated");
    reveal_strlit("missing");
    reveal_strlit("read_only");
    reveal_strlit("error");
    match value {
        PlacementState::Pending => {
            assert("pending"@.len() != "validated"@.len());
            assert("pending"@[0] != "missing"@[0]);
            assert("pending"@.len() != "read_only"@.len());
            assert("pending"@.len() != "error"@.len());
        },
        PlacementState::Validated => {
            assert("validated"@.len() != "pending"@.len());
            assert("validated"@.len() != "missing"@.len());
            assert("validated"@[0] != "read_only"@[0]);
            assert("validated"@.len() != "error"@.len());
        },
        PlacementState::Missing => {
            assert("missing"@[0] != "pending"@[0]);
            assert("missing"@.len() != "validated"@.len());
            assert("missing"@.len() != "read_only"@.len());
            assert("missing"@.len() != "error"@.len());
        },
        PlacementState::ReadOnly => {
            assert("read_only"@.len() != "pending"@.len());
            assert("read_only"@[0] != "validated"@[0]);
            assert("read_only"@.len() != "missing"@.len());
            assert("read_only"@.len() != "error"@.len());
        },
        PlacementState::Error => {
            assert("error"@.len() != "pending"@.len());
            assert("error"@.len() != "validated"@.len());
            assert("error"@.len() != "missing"@.len());
            assert("error"@.len() != "read_only"@.len());
        },
    }
}

/// State of a node enrollment request.
#[derive(Clone, Copy, PartialEq, Eq, Debug, Structural)]
pub enum EnrollmentState {
    Unregistered,
    PendingUserApproval,
    Approved,
    Registered,
    Expired,
    Rejected,
    Revoked,
}

/// The name under which a `EnrollmentState` is stored.
pub open spec fn enrollment_state_name(value: EnrollmentState) -> Seq<char> {
    match value {
        EnrollmentState::Unregistered => "unregistered"@,
        EnrollmentState::PendingUserApproval => "pending_user_approval"@,
        EnrollmentState::Approved => "approved"@,
        EnrollmentState::Registered => "registered"@,
        EnrollmentState::Expired => "expired"@,
        EnrollmentState::Rejected => "rejected"@,
        EnrollmentState::Revoked => "revoked"@,
    }
}

/// The stored name of `value`.
pub fn format_enrollment_state(value: EnrollmentState) -> (r: &'static str)
    ensures
        r@ == enrollment_state_name(value),
{
    match value {
        EnrollmentState::Unregistered => "unregistered",
        EnrollmentState::PendingUserApproval => "pending_user_approval",
        EnrollmentState::Approved => "approved",
        EnrollmentState::Registered => "registered",
        EnrollmentState::Expired => "expired",
        EnrollmentState::Rejected => "rejected",
        EnrollmentState::Revoked => "revoked",
    }
}

/// The `EnrollmentState` stored under `name`; an unknown name reads as `PendingUserApproval`.
pub open spec fn enrollment_state_from_name(name: Seq<char>) -> EnrollmentState {
    if name == "unregistered"@ {
        EnrollmentState::Unregistered
    } else if name == "approved"@ {
        EnrollmentState::Approved
    } else if name == "registered"@ {
        EnrollmentState::Registered
    } else if name == "expired"@ {
        EnrollmentState::Expired
    } else if name == "rejected"@ {
        EnrollmentState::Rejected
    } else if name == "revoked"@ {
        EnrollmentState::Revoked
    } else {
        EnrollmentState::PendingUserApproval
    }
}

/// Reads a stored `EnrollmentState` name; an unknown name reads as `PendingUserApproval`.
pub fn parse_enrollment_state(value: &str) -> (r: EnrollmentState)
    ensures
        r == enrollment_state_from_name(value@),
{
    if str_eq(value, "unregistered") {
        EnrollmentState::Unregistered
    } else if str_eq(value, "approved") {
        EnrollmentState::Approved
    } else if str_eq(value, "registered") {
        EnrollmentState::Registered
    } else if str_eq(value, "expired") {
        EnrollmentState::Expired
    } else if str_eq(value, "rejected") {
        EnrollmentState::Rejected
    } else if str_eq(value, "revoked") {
        EnrollmentState::Revoked
    } else {
        EnrollmentState::PendingUserApproval
    }
}

/// Reading back the stored name of a `EnrollmentState` gives the same value.
pub proof fn lemma_enrollment_state_round_trip(value: EnrollmentState)
    ensures
        enrollment_state_from_name(enrollment_state_name(value)) == value,
{
    reveal_strlit("unregistered");
    reveal_strlit("pending_user_approval");
    reveal_strlit("approved");
    reveal_strlit("registered");
    reveal_strlit("expired");
    reveal_strlit("rejected");
    reveal_strlit("revoked");
    match value {
        EnrollmentState::Unregistered => {
            assert("unregistered"@.len() != "pending_user_approval"@.len());
            assert("unregistered"@.len() != "approved"@.len());
            assert("unregistered"@.len() != "registered"@.len());
            assert("unregistered"@.len() != "expired"@.len());
            assert("unregistered"@.len() != "rejected"@.len());
            assert("unregistered"@.len() != "revoked"@.len());
        },
        EnrollmentState::PendingUserApproval => {
            assert("pending_user_approval"@.len() != "unregistered"@.len());
            assert("pending_user_approval"@.len() != "approved"@.len());
            assert("pending_user_approval"@.len() != "registered"@.len());
            assert("pending_user_approval"@.len() != "expired"@.len());
            assert("pending_user_approval"@.len() != "rejected"@.len());
            assert("pending_user_approval"@.len() != "revoked"@.len());
        },
        EnrollmentState::Approved => {
            assert("approved"@.len() != "unregistered"@.len());
            assert("approved"@.len() != "pending_user_approval"@.len());
            assert("approved"@.len() != "registered"@.len());
            assert("approved"@.len() != "expired"@.len());
            assert("approved"@[0] != "rejected"@[0]);
            assert("approved"@.len() != "revoked"@.len());
        },
        EnrollmentState::Registered => {
            assert("registered"@.len() != "unregistered"@.len());
            assert("registered"@.len() != "pending_user_approval"@.len());
            assert("registered"@.len() != "approved"@.len());
            assert("registered"@.len() != "expired"@.len());
            assert("registered"@.len() != "rejected"@.len());
            assert("registered"@.len() != "revoked"@.len());
        },
        EnrollmentState::Expired => {
            assert("expired"@.len() != "unregistered"@.len());
            assert("expired"@.len() != "pending_user_approval"@.len());
            assert("expired"@.len() != "approved"@.len());
            assert("expired"@.len() != "registered"@.len());
            assert("expired"@.len() != "rejected"@.len());
            assert("expired"@[0] != "revoked"@[0]);
        },
        EnrollmentState::Rejected => {
            assert("rejected"@.len() != "unregistered"@.len());
            assert("rejected"@.len() != "pending_user_approval"@.len());
            assert("rejected"@[0] != "approved"@[0]);
            assert("rejected"@.len() != "registered"@.len());
            assert("rejected"@.len() != "expired"@.len());
            assert("rejected"@.len() != "revoked"@.len());
        },
        EnrollmentState::Revoked => {
            assert("revoked"@.len() != "unregistered"@.len());
            assert("revoked"@.len() != "pending_user_approval"@.len());
            assert("revoked"@.len() != "approved"@.len());
            assert("revoked"@.len() != "registered"@.len());
            assert("revoked"@[0] != "expired"@[0]);
            assert("revoked"@.len() != "rejected"@.len());
        },
    }
}

/// What a node reports of its power state.
#[derive(Clone, Copy, PartialEq, Eq, Debug, Structural)]
pub enum SleepHint {
    Unknown,
    Awake,
    Suspending,
    Sleeping,
    Woke,
}

/// The name under which a `SleepHint` is stored.
pub open spec fn sleep_hint_name(value: SleepHint) -> Seq<char> {
    match value {
        SleepHint::Unknown => "unknown"@,
        SleepHint::Awake => "awake"@,
        SleepHint::Suspending => "suspending"@,
        SleepHint::Sleeping => "sleeping"@,
        SleepHint::Woke => "woke"@,
    }
}

/// The stored name of `value`.
pub fn format_sleep_hint(value: SleepHint) -> (r: &'static str)
    ensures
        r@ == sleep_hint_name(value),
{
    match value {
        SleepHint::Unknown => "unknown",
        SleepHint::Awake => "awake",
        SleepHint::Suspending => "suspending",
        SleepHint::Sleeping => "sleeping",
        SleepHint::Woke => "woke",
    }
}

/// The `SleepHint` stored under `name`; an unknown name reads as `Unknown`.
pub open spec fn sleep_hint_from_name(name: Seq<char>) -> SleepHint {
    if name == "awake"@ {
        SleepHint::Awake
    } else if name == "suspending"@ {
        SleepHint::Suspending
    } else if name == "sleeping"@ {
        SleepHint::Sleeping
    } else if name == "woke"@ {
        SleepHint::Woke
    } else {
        SleepHint::Unknown
    }
}

/// Reads a stored `SleepHint` name; an unknown name reads as `Unknown`.
pub fn parse_sleep_hint(value: &str) -> (r: SleepHint)
    ensures
        r == sleep_hint_from_name(value@),
{
    if str_eq(value, "awake") {
        SleepHint::Awake
    } else if str_eq(value, "suspending") {
        SleepHint::Suspending
    } else if str_eq(value, "sleeping") {
        SleepHint::Sleeping
    } else if str_eq(value, "woke") {
        SleepHint::Woke
    } else {
        SleepHint::Unknown
    }
}

/// Reading back the stored name of a `SleepHint` gives the same value.
pub proof fn lemma_sleep_hint_round_trip(value: SleepHint)
    ensures
        sleep_hint_from_name(sleep_hint_name(value)) == value,
{
    reveal_strlit("unknown");
    reveal_strlit("awake");
    reveal_strlit("suspending");
    reveal_strlit("sleeping");
    reveal_strlit("woke");
    match value {
        SleepHint::Unknown => {
            assert("unknown"@.len() != "awake"@.len());
            assert("unknown"@.len() != "suspending"@.len());
            assert("unknown"@.len() != "sleeping"@.len());
            assert("unknown"@.len() != "woke"@.len());
        },
        SleepHint::Awake => {
            assert("awake"@.len() != "unknown"@.len());
            assert("awake"@.len() != "suspending"@.len());
            assert("awake"@.len() != "sleeping"@.len());
            assert("awake"@.len() != "woke"@.len());
        },
        SleepHint::Suspending => {
            assert("suspending"@.len() != "unknown"@.len());
            assert("suspending"@.len() != "awake"@.len());
            assert("suspending"@.len() != "sleeping"@.len());
            assert("suspending"@.len() != "woke"@.len());
        },
        SleepHint::Sleeping => {
            assert("sleeping"@.len() != "unknown"@.len());
            assert("sleeping"@.len() != "awake"@.len());
            assert("sleeping"@.len() != "suspending"@.len());
            assert("sleeping"@.len() != "woke"@.len());
        },
        SleepHint::Woke => {
            assert("woke"@.len() != "unknown"@.len());
            assert("woke"@.len() != "awake"@.len());
            assert("woke"@.len() != "suspending"@.len());
            assert("woke"@.len() != "sleeping"@.len());
        },
    }
}

/// Author role of a session message.
#[derive(Clone, Copy, PartialEq, Eq, Debug, Structural)]
pub enum MessageRole {
    User,
    Assistant,
    System,
    Runtime,
    Approval,
}

/// The name under which a `MessageRole` is stored.
pub open spec fn message_role_name(value: MessageRole) -> Seq<char> {
    match value {
        MessageRole::User => "user"@,
        MessageRole::Assistant => "assistant"@,
        MessageRole::System => "system"@,
        MessageRole::Runtime => "runtime"@,
        MessageRole::Approval => "approval"@,
    }
}

/// The stored name of `value`.
pub fn format_message_role(value: MessageRole) -> (r: &'static str)
    ensures
        r@ == message_role_name(value),
{
    match value {
        MessageRole::User => "user",
        MessageRole::Assistant => "assistant",
        MessageRole::System => "system",
        MessageRole::Runtime => "runtime",
        MessageRole::Approval => "approval",
    }
}

/// The `MessageRole` stored under `name`; an unknown name reads as `User`.
pub open spec fn message_role_from_name(name: Seq<char>) -> MessageRole {
    if name == "assistant"@ {
        MessageRole::Assistant
    } else if name == "system"@ {
        MessageRole::System
    } else if name == "runtime"@ {
        MessageRole::Runtime
    } else if name == "approval"@ {
        MessageRole::Approval
    } else {
        MessageRole::User
    }
}

/// Reads a stored `MessageRole` name; an unknown name reads as `User`.
pub fn parse_message_role(value: &str) -> (r: MessageRole)
    ensures
        r == message_role_from_name(value@),
{
    if str_eq(value, "assistant") {
        MessageRole::Assistant
    } else if str_eq(value, "system") {
        MessageRole::System
    } else if str_eq(value, "runtime") {
        MessageRole::Runtime
    } else if str_eq(value, "approval") {
        MessageRole::Approval
    } else {
        MessageRole::User
    }
}

/// Reading back the stored name of a `MessageRole` gives the same value.
pub proof fn lemma_message_role_round_trip(value: MessageRole)
    ensures
        message_role_from_name(message_role_name(value)) == value,
{
    reveal_strlit("user");
    reveal_strlit("assistant");
    reveal_strlit("system");
    reveal_strlit("runtime");
    reveal_strlit("approval");
    match value {
        MessageRole::User => {
            assert("user"@.len() != "assistant"@.len());
            assert("user"@.len() != "system"@.len());
            assert("user"@.len() != "runtime"@.len());
            assert("user"@.len() != "approval"@.len());
        },
        MessageRole::Assistant => {
            assert("assistant"@.len() != "user"@.len());
            assert("assistant"@.len() != "system"@.len());
            assert("assistant"@.len() != "runtime"@.len());
            assert("assistant"@.len() != "approval"@.len());
        },
        MessageRole::System => {
            assert("system"@.len() != "user"@.len());
            assert("system"@.len() != "assistant"@.len());
            assert("system"@.len() != "runtime"@.len());
            assert("system"@.len() != "approval"@.len());
        },
        MessageRole::Runtime => {
            assert("runtime"@.len() != "user"@.len());
            assert("runtime"@.len() != "assistant"@.len());
            assert("runtime"@.len() != "system"@.len());
            assert("runtime"@.len() != "approval"@.len());
        },
        MessageRole::Approval => {
            assert("approval"@.len() != "user"@.len());
            assert("approval"@.len() != "assistant"@.len());
            assert("approval"@.len() != "system"@.len());
            assert("approval"@.len() != "runtime"@.len());
        },
    }
}

/// Progress of one user turn.
#[derive(Clone, Copy, PartialEq, Eq, Debug, Structural)]
pub enum TurnState {
    Created,
    Dispatched,
    Running,
    BlockedOnApproval,
    Completed,
    Interrupted,
    Failed,
}

/// The name under which a `TurnState` is stored.
pub open spec fn turn_state_name(value: TurnState) -> Seq<char> {
    match value {
        TurnState::Created => "created"@,
        TurnState::Dispatched => "dispatched"@,
        TurnState::Running => "running"@,
        TurnState::BlockedOnApproval => "blocked_on_approval"@,
        TurnState::Completed => "completed"@,
        TurnState::Interrupted => "interrupted"@,
        TurnState::Failed => "failed"@,
    }
}

/// The stored name of `value`.
pub fn format_turn_state(value: TurnState) -> (r: &'static str)
    ensures
        r@ == turn_state_name(value),
{
    match value {
        TurnState::Created => "created",
        TurnState::Dispatched => "dispatched",
        TurnState::Running => "running",
        TurnState::BlockedOnApproval => "blocked_on_approval",
        TurnState::Completed => "completed",
        TurnState::Interrupted => "interrupted",
        TurnState::Failed => "failed",
    }
}

/// State of an approval request.
#[derive(Clone, Copy, PartialEq, Eq, Debug, Structural)]
pub enum ApprovalState {
    Requested,
    Resolved,
    Expired,
    Cancelled,
}

/// The name under which a `ApprovalState` is stored.
pub open spec fn approval_state_name(value: ApprovalState) -> Seq<char> {
    match value {
        ApprovalState::Requested => "requested"@,
        ApprovalState::Resolved => "resolved"@,
        ApprovalState::Expired => "expired"@,
        ApprovalState::Cancelled => "cancelled"@,
    }
}

/// The stored name of `value`.
pub fn format_approval_state(value: ApprovalState) -> (r: &'static str)
    ensures
        r@ == approval_state_name(value),
{
    match value {
        ApprovalState::Requested => "requested",
        ApprovalState::Resolved => "resolved",
        ApprovalState::Expired => "expired",
        ApprovalState::Cancelled => "cancelled",
    }
}

/// Delivery state of a command sent to a node.
#[derive(Clone, Copy, PartialEq, Eq, Debug, Structural)]
pub enum CommandState {
    Recorded,
    PendingDispatch,
    Dispatched,
    Acknowledged,
    Completed,
    Failed,
    Blocked,
    Expired,
}

/// The name under which a `CommandState` is stored.
pub open spec fn command_state_name(value: CommandState) -> Seq<char> {
    match value {
        CommandState::Recorded => "recorded"@,
        CommandState::PendingDispatch => "pending_dispatch"@,
        CommandState::Dispatched => "dispatched"@,
        CommandState::Acknowledged => "acknowledged"@,
        CommandState::Completed => "completed"@,
        CommandState::Failed => "failed"@,
        CommandState::Blocked => "blocked"@,
        CommandState::Expired => "expired"@,
    }
}

/// The stored name of `value`.
pub fn format_command_state(value: CommandState) -> (r: &'static str)
    ensures
        r@ == command_state_name(value),
{
    match value {
        CommandState::Recorded => "recorded",
        CommandState::PendingDispatch => "pending_dispatch",
        CommandState::Dispatched => "dispatched",
        CommandState::Acknowledged => "acknowledged",
        CommandState::Completed => "completed",
        CommandState::Failed => "failed",
        CommandState::Blocked => "blocked",
        CommandState::Expired => "expired",
    }
}

/// Level of a log record sent by a web client.
#[derive(Clone, Copy, PartialEq, Eq, Debug, Structural)]
pub enum ClientLogLevel {
    Debug,
    Info,
    Warn,
    Error,
}

/// The name under which a `ClientLogLevel` is stored.
pub open spec fn client_log_level_name(value: ClientLogLevel) -> Seq<char> {
    match value {
        ClientLogLevel::Debug => "debug"@,
        ClientLogLevel::Info => "info"@,
        ClientLogLevel::Warn => "warn"@,
        ClientLogLevel::Error => "error"@,
    }
}

/// The stored name of `value`.
pub fn format_client_log_level(value: ClientLogLevel) -> (r: &'static str)
    ensures
        r@ == client_log_level_name(value),
{
    match value {
        ClientLogLevel::Debug => "debug",
        ClientLogLevel::Info => "info",
        ClientLogLevel::Warn => "warn",
        ClientLogLevel::Error => "error",
    }
}

/// Severity of a resource badge or warning.
#[derive(Clone, Copy, PartialEq, Eq, Debug, Structural)]
pub enum WarningSeverity {
    Info,
    Warning,
    HardBlock,
}

/// The name under which a `WarningSeverity` is stored.
pub open spec fn warning_severity_name(value: WarningSeverity) -> Seq<char> {
    match value {
        WarningSeverity::Info => "info"@,
        WarningSeverity::Warning => "warning"@,
        WarningSeverity::HardBlock => "hard_block"@,
    }
}

/// The stored name of `value`.
pub fn format_warning_severity(value: WarningSeverity) -> (r: &'static str)
    ensures
        r@ == warning_severity_name(value),
{
    match value {
        WarningSeverity::Info => "info",
        WarningSeverity::Warning => "warning",
        WarningSeverity::HardBlock => "hard_block",
    }
}

/// How much the deployment trusts its clients.
#[derive(Clone, Copy, PartialEq, Eq, Debug, Structural)]
pub enum DeploymentProfile {
    LocalTrusted,
    ControlledDev,
}

/// The name under which a `DeploymentProfile` is stored.
pub open spec fn deployment_profile_name(value: DeploymentProfile) -> Seq<char> {
    match value {
        DeploymentProfile::LocalTrusted => "local_trusted"@,
        DeploymentProfile::ControlledDev => "controlled_dev"@,
    }
}

/// The stored name of `value`.
pub fn format_deployment_profile(value: DeploymentProfile) -> (r: &'static str)
    ensures
        r@ == deployment_profile_name(value),
{
    match value {
        DeploymentProfile::LocalTrusted => "local_trusted",
        DeploymentProfile::ControlledDev => "controlled_dev",
    }
}

/// What a command asks a node to do.
#[derive(Clone, Copy, PartialEq, Eq, Debug, Structural)]
pub enum CommandKind {
    StartRuntime,
    SendTurn,
    ResolveApproval,
    InterruptRuntime,
    StopRuntime,
    ResumeRuntime,
    ValidateWorkspace,
    RefreshResourceSnapshot,
}

/// The name under which a `CommandKind` is stored.
pub open spec fn command_kind_name(value: CommandKind) -> Seq<char> {
    match value {
        CommandKind::StartRuntime => "StartRuntime"@,
        CommandKind::SendTurn => "SendTurn"@,
        CommandKind::ResolveApproval => "ResolveApproval"@,
        CommandKind::InterruptRuntime => "InterruptRuntime"@,
        CommandKind::StopRuntime => "StopRuntime"@,
        CommandKind::ResumeRuntime => "ResumeRuntime"@,
        CommandKind::ValidateWorkspace => "ValidateWorkspace"@,
        CommandKind::RefreshResourceSnapshot => "RefreshResourceSnapshot"@,
    }
}

/// The stored name of `value`.
pub fn command_kind_label(value: CommandKind) -> (r: &'static str)
    ensures
        r@ == command_kind_name(value),
{
    match value {
        CommandKind::StartRuntime => "StartRuntime",
        CommandKind::SendTurn => "SendTurn",
        CommandKind::ResolveApproval => "ResolveApproval",
        CommandKind::InterruptRuntime => "InterruptRuntime",
        CommandKind::StopRuntime => "StopRuntime",
        CommandKind::ResumeRuntime => "ResumeRuntime",
        CommandKind::ValidateWorkspace => "ValidateWorkspace",
        CommandKind::RefreshResourceSnapshot => "RefreshResourceSnapshot",
    }
}

/// What an event records.
#[derive(Clone, Copy, PartialEq, Eq, Debug, Structural)]
pub enum EventKind {
    RuntimeStarting,
    RuntimeReady,
    RuntimeRunning,
    RuntimeBlocked,
    RuntimeExpired,
    RuntimeResuming,
    RuntimeStopped,
    RuntimeError,
    TurnStarted,
    TurnCompleted,
    TurnInterrupted,
    ProviderOutputDelta,
    ProviderMessageCompleted,
    ApprovalRequested,
    ApprovalResolved,
    WorkspaceValidated,
    ResourceSnapshotUpdated,
    CoordinationWarningAcknowledged,
}

/// The name under which a `EventKind` is stored.
pub open spec fn event_kind_name(value: EventKind) -> Seq<char> {
    match value {
        EventKind::RuntimeStarting => "RuntimeStarting"@,
        EventKind::RuntimeReady => "RuntimeReady"@,
        EventKind::RuntimeRunning => "RuntimeRunning"@,
        EventKind::RuntimeBlocked => "RuntimeBlocked"@,
        EventKind::RuntimeExpired => "RuntimeExpired"@,
        EventKind::RuntimeResuming => "RuntimeResuming"@,
        EventKind::RuntimeStopped => "RuntimeStopped"@,
        EventKind::RuntimeError => "RuntimeError"@,
        EventKind::TurnStarted => "TurnStarted"@,
        EventKind::TurnCompleted => "TurnCompleted"@,
        EventKind::TurnInterrupted => "TurnInterrupted"@,
        EventKind::ProviderOutputDelta => "ProviderOutputDelta"@,
        EventKind::ProviderMessageCompleted => "ProviderMessageCompleted"@,
        EventKind::ApprovalRequested => "ApprovalRequested"@,
        EventKind::ApprovalResolved => "ApprovalResolved"@,
        EventKind::WorkspaceValidated => "WorkspaceValidated"@,
        EventKind::ResourceSnapshotUpdated => "ResourceSnapshotUpdated"@,
        EventKind::CoordinationWarningAcknowledged => "CoordinationWarningAcknowledged"@,
    }
}

/// The stored name of `value`.
pub fn event_kind_label(value: EventKind) -> (r: &'static str)
    ensures
        r@ == event_kind_name(value),
{
    match value {
        EventKind::RuntimeStarting => "RuntimeStarting",
        EventKind::RuntimeReady => "RuntimeReady",
        EventKind::RuntimeRunning => "RuntimeRunning",
        EventKind::RuntimeBlocked => "RuntimeBlocked",
        EventKind::RuntimeExpired => "RuntimeExpired",
        EventKind::RuntimeResuming => "RuntimeResuming",
        EventKind::RuntimeStopped => "RuntimeStopped",
        EventKind::RuntimeError => "RuntimeError",
        EventKind::TurnStarted => "TurnStarted",
        EventKind::TurnCompleted => "TurnCompleted",
        EventKind::TurnInterrupted => "TurnInterrupted",
        EventKind::ProviderOutputDelta => "ProviderOutputDelta",
        EventKind::ProviderMessageCompleted => "ProviderMessageCompleted",
        EventKind::ApprovalRequested => "ApprovalRequested",
        EventKind::ApprovalResolved => "ApprovalResolved",
        EventKind::WorkspaceValidated => "WorkspaceValidated",
        EventKind::ResourceSnapshotUpdated => "ResourceSnapshotUpdated",
        EventKind::CoordinationWarningAcknowledged => "CoordinationWarningAcknowledged",
    }
}

} // verus!
