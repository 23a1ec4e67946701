//! The control channel between node and control plane: its frames, the protocol version
//! both speak, the error a side answers a frame of another version with, and what each
//! side does with a frame it receives.
use vstd::prelude::*;

use crate::node_state::{remove_acked_events, unacknowledged, NodeLocalState};
use crate::projection::view_events;
use crate::protocol::{
    json_obj0, json_obj2, json_str, obj0, obj2, CommandEnvelope, EventEnvelope, JsonValue, JsonView,
};
use crate::states::CommandState;
use crate::text::{str_eq, string_from, strings_view};

verus! {

/// The control protocol version this library speaks.
pub open spec fn api_version() -> Seq<char> {
    "v1"@
}

/// An error as the API reports it.
pub struct ApiError {
    pub error_code: String,
    pub message: String,
    pub details: JsonValue,
    pub retryable: bool,
    pub correlation_id: String,
}

/// A frame on the control channel; times are milliseconds since the Unix epoch.
pub enum ControlFrame {
    Hello {
        frame_id: String,
        protocol_version: String,
        sent_at: i64,
        node_id: String,
        daemon_version: String,
        active_runtime_ids: Vec<String>,
    },
    HelloAck { frame_id: String, protocol_version: String, sent_at: i64 },
    CommandDispatch {
        frame_id: String,
        protocol_version: String,
        sent_at: i64,
        command: CommandEnvelope,
    },
    CommandAck {
        frame_id: String,
        protocol_version: String,
        sent_at: i64,
        command_id: String,
        status: CommandState,
    },
    CommandResult {
        frame_id: String,
        protocol_version: String,
        sent_at: i64,
        command_id: String,
        status: CommandState,
        payload: JsonValue,
    },
    EventBatch {
        frame_id: String,
        protocol_version: String,
        sent_at: i64,
        events: Vec<EventEnvelope>,
    },
    EventBatchAck {
        frame_id: String,
        protocol_version: String,
        sent_at: i64,
        accepted_event_ids: Vec<String>,
    },
    Ping { frame_id: String, protocol_version: String, sent_at: i64 },
    Pong { frame_id: String, protocol_version: String, sent_at: i64 },
    ControlError { frame_id: String, protocol_version: String, sent_at: i64, error: ApiError },
}

/// The protocol version a frame was sent under.
pub open spec fn frame_version(f: ControlFrame) -> Seq<char> {
    match f {
        ControlFrame::Hello { protocol_version, .. } => protocol_version@,
        ControlFrame::HelloAck { protocol_version, .. } => protocol_version@,
        ControlFrame::CommandDispatch { protocol_version, .. } => protocol_version@,
        ControlFrame::CommandAck { protocol_version, .. } => protocol_version@,
        ControlFrame::CommandResult { protocol_version, .. } => protocol_version@,
        ControlFrame::EventBatch { protocol_version, .. } => protocol_version@,
        ControlFrame::EventBatchAck { protocol_version, .. } => protocol_version@,
        ControlFrame::Ping { protocol_version, .. } => protocol_version@,
        ControlFrame::Pong { protocol_version, .. } => protocol_version@,
        ControlFrame::ControlError { protocol_version, .. } => protocol_version@,
    }
}

pub fn control_frame_protocol_version(frame: &ControlFrame) -> (r: &str)
    ensures
        r@ == frame_version(*frame),
{
    match frame {
        ControlFrame::Hello { protocol_version, .. } => protocol_version.as_str(),
        ControlFrame::HelloAck { protocol_version, .. } => protocol_version.as_str(),
        ControlFrame::CommandDispatch { protocol_version, .. } => protocol_version.as_str(),
        ControlFrame::CommandAck { protocol_version, .. } => protocol_version.as_str(),
        ControlFrame::CommandResult { protocol_version, .. } => protocol_version.as_str(),
        ControlFrame::EventBatch { protocol_version, .. } => protocol_version.as_str(),
        ControlFrame::EventBatchAck { protocol_version, .. } => protocol_version.as_str(),
        ControlFrame::Ping { protocol_version, .. } => protocol_version.as_str(),
        ControlFrame::Pong { protocol_version, .. } => protocol_version.as_str(),
        ControlFrame::ControlError { protocol_version, .. } => protocol_version.as_str(),
    }
}

/// `f` reports, under this library's version, an error with this code, message, details
/// and retry flag. Its frame id, time and correlation id are fresh and not stated.
pub open spec fn error_frame(
    f: ControlFrame,
    code: Seq<char>,
    message: Seq<char>,
    details: JsonView,
    retryable: bool,
) -> bool {
    match f {
        ControlFrame::ControlError { protocol_version, error, .. } => {
            &&& protocol_version@ == api_version()
            &&& error.error_code@ == code
            &&& error.message@ == message
            &&& error.details@ == details
            &&& error.retryable == retryable
        },
        _ => false,
    }
}

/// The error answered to a frame of protocol version `received`: not retryable, naming
/// the version expected and the one received.
pub open spec fn protocol_error_ok(f: ControlFrame, received: Seq<char>) -> bool {
    error_frame(
        f,
        "control.protocol_incompatible"@,
        "Control protocol version is incompatible"@,
        obj2(
            "expected_protocol_version"@,
            JsonView::Str(api_version()),
            "received_protocol_version"@,
            JsonView::Str(received),
        ),
        false,
    )
}

/// An error frame with fresh ids, sent now.
pub fn control_error_frame(code: &str, message: &str, details: JsonValue, retryable: bool) -> (r:
    ControlFrame)
    ensures
        error_frame(r, code@, message@, details@, retryable),
{
    ControlFrame::ControlError {
        frame_id: crate::system::new_uuid(),
        protocol_version: string_from("v1"),
        sent_at: crate::system::now_millis(),
        error: ApiError {
            error_code: string_from(code),
            message: string_from(message),
            details,
            retryable,
            correlation_id: crate::system::new_uuid(),
        },
    }
}

/// The error for a frame sent under another protocol version, or nothing when it was
/// sent under the version spoken here.
pub fn control_frame_protocol_error(frame: &ControlFrame) -> (r: Option<ControlFrame>)
    ensures
        r is None <==> frame_version(*frame) == api_version(),
        r matches Some(f) ==> protocol_error_ok(f, frame_version(*frame)),
{
    let received = control_frame_protocol_version(frame);
    if str_eq(received, "v1") {
        return None;
    }
    let details = json_obj2(
        "expected_protocol_version",
        json_str("v1"),
        "received_protocol_version",
        json_str(received),
    );
    Some(
        control_error_frame(
            "control.protocol_incompatible",
            "Control protocol version is incompatible",
            details,
            false,
        ),
    )
}

/// What a node does with a frame from the control plane.
pub enum NodeFrameStep {
    /// Send this frame back.
    Reply(ControlFrame),
    /// Acknowledge and run this command.
    Dispatch(CommandEnvelope),
    /// Events the control plane accepted were dropped from the outbox; the state is to be
    /// saved when any were.
    OutboxAcked { removed: usize },
    /// Nothing to do.
    Ignore,
}

/// Handles one frame on the node: a frame of another protocol version is answered with
/// the protocol error; a dispatch is handed on; a ping is answered with a pong that
/// carries its frame id; an acknowledgement of events drops them from the outbox; any
/// other frame is ignored. Only the acknowledgement changes the state.
pub fn node_control_step(local_state: &mut NodeLocalState, frame: ControlFrame) -> (r: NodeFrameStep)
    ensures
        frame_version(frame) != api_version() ==> (r matches NodeFrameStep::Reply(f)
            && protocol_error_ok(f, frame_version(frame))) && *final(local_state) == *old(local_state),
        frame_version(frame) == api_version() ==> match frame {
            ControlFrame::CommandDispatch { command, .. } => r == NodeFrameStep::Dispatch(command)
                && *final(local_state) == *old(local_state),
            ControlFrame::Ping { frame_id, .. } => (r matches NodeFrameStep::Reply(
                ControlFrame::Pong { frame_id: pong_id, protocol_version, .. },
            ) && pong_id == frame_id && protocol_version@ == api_version()) && *final(local_state)
                == *old(local_state),
            ControlFrame::EventBatchAck { accepted_event_ids, .. } => {
                &&& view_events(final(local_state).event_outbox@) == unacknowledged(
                    view_events(old(local_state).event_outbox@),
                    strings_view(accepted_event_ids@),
                )
                &&& r == NodeFrameStep::OutboxAcked {
                    removed: (old(local_state).event_outbox@.len()
                        - final(local_state).event_outbox@.len()) as usize,
                }
                &&& *final(local_state) == (NodeLocalState {
                    event_outbox: final(local_state).event_outbox,
                    ..*old(local_state)
                })
            },
            _ => r == NodeFrameStep::Ignore && *final(local_state) == *old(local_state),
        },
{
    if let Some(error) = control_frame_protocol_error(&frame) {
        return NodeFrameStep::Reply(error);
    }
    match frame {
        ControlFrame::CommandDispatch { command, .. } => NodeFrameStep::Dispatch(command),
        ControlFrame::Ping { frame_id, .. } => NodeFrameStep::Reply(
            ControlFrame::Pong {
                frame_id,
                protocol_version: string_from("v1"),
                sent_at: crate::system::now_millis(),
            },
        ),
        ControlFrame::EventBatchAck { accepted_event_ids, .. } => {
            let removed = remove_acked_events(&mut local_state.event_outbox, &accepted_event_ids);
            NodeFrameStep::OutboxAcked { removed }
        },
        _ => NodeFrameStep::Ignore,
    }
}

/// The acknowledgement a node sends on receiving a command.
pub fn command_ack_frame(command_id: &str) -> (r: ControlFrame)
    ensures
        r matches ControlFrame::CommandAck { protocol_version, command_id: id, status, .. } && protocol_version@
            == api_version() && id@ == command_id@ && status == CommandState::Acknowledged,
{
    ControlFrame::CommandAck {
        frame_id: crate::system::new_uuid(),
        protocol_version: string_from("v1"),
        sent_at: crate::system::now_millis(),
        command_id: string_from(command_id),
        status: CommandState::Acknowledged,
    }
}

/// The result a node sends once a command is handled, with an empty payload.
pub fn command_result_frame(command_id: &str, status: CommandState) -> (r: ControlFrame)
    ensures
        r matches ControlFrame::CommandResult {
            protocol_version,
            command_id: id,
            status: s,
            payload,
            ..
        } && protocol_version@ == api_version() && id@ == command_id@ && s == status && payload@
            == obj0(),
{
    ControlFrame::CommandResult {
        frame_id: crate::system::new_uuid(),
        protocol_version: string_from("v1"),
        sent_at: crate::system::now_millis(),
        command_id: string_from(command_id),
        status,
        payload: json_obj0(),
    }
}

/// The batch that carries `events`; none for no events.
pub fn event_batch_frame(events: Vec<EventEnvelope>) -> (r: Option<ControlFrame>)
    ensures
        events@.len() == 0 <==> r is None,
        r matches Some(f) ==> (f matches ControlFrame::EventBatch { protocol_version, events: e, .. }
            && protocol_version@ == api_version() && e == events),
{
    if events.len() == 0 {
        return None;
    }
    Some(
        ControlFrame::EventBatch {
            frame_id: crate::system::new_uuid(),
            protocol_version: string_from("v1"),
            sent_at: crate::system::now_millis(),
            events,
        },
    )
}

/// What the control plane does with a frame from a node.
pub enum ServerFrameAction {
    /// Send the node `reply`, an error frame with this code and message that is not to
    /// be retried, and fail the request: as unauthorized when `auth` holds, else as a
    /// bad request.
    Reject { error_code: String, message: String, auth: bool, reply: ControlFrame },
    /// Acknowledge the hello and dispatch the node's pending commands.
    AcknowledgeHello,
    /// Record the command's new state.
    UpdateCommand { command_id: String, status: CommandState },
    /// Accept each event of the batch and acknowledge their ids.
    AcceptEvents,
    /// Nothing to do.
    Ignore,
}

pub open spec fn reject_spec(a: ServerFrameAction, code: Seq<char>, message: Seq<char>, auth: bool) -> bool {
    a matches ServerFrameAction::Reject { error_code, message: m, auth: x, reply } && error_code@ == code
        && m@ == message && x == auth && error_frame(reply, code, message, obj0(), false)
}

fn reject(error_code: &str, message: &str, auth: bool) -> (r: ServerFrameAction)
    ensures
        reject_spec(r, error_code@, message@, auth),
{
    ServerFrameAction::Reject {
        error_code: string_from(error_code),
        message: string_from(message),
        auth,
        reply: server_control_error(error_code, message, false),
    }
}

/// Handles one frame from the node that authenticated as `node_id`: any frame but a
/// hello sent under another protocol version is refused; a hello must name the node and
/// speak this version; command acknowledgements and results update the command; an
/// event batch is accepted; anything else is ignored.
pub fn server_frame_action(node_id: &str, frame: &ControlFrame) -> (r: ServerFrameAction)
    ensures
        !(*frame is Hello) && frame_version(*frame) != api_version() ==> reject_spec(
            r,
            "control.protocol_incompatible"@,
            "Control protocol version is incompatible"@,
            false,
        ),
        *frame is Hello || frame_version(*frame) == api_version() ==> match *frame {
            ControlFrame::Hello { node_id: hello_node, protocol_version, .. } => if hello_node@
                != node_id@ {
                reject_spec(
                    r,
                    "control.node_mismatch"@,
                    "Control hello node id does not match authenticated node"@,
                    true,
                )
            } else if protocol_version@ != api_version() {
                reject_spec(
                    r,
                    "control.protocol_incompatible"@,
                    "Control protocol version is incompatible"@,
                    false,
                )
            } else {
                r is AcknowledgeHello
            },
            ControlFrame::CommandAck { command_id, status, .. } => r matches ServerFrameAction::UpdateCommand {
                command_id: c,
                status: s,
            } && c@ == command_id@ && s == status,
            ControlFrame::CommandResult { command_id, status, .. } => r matches ServerFrameAction::UpdateCommand {
                command_id: c,
                status: s,
            } && c@ == command_id@ && s == status,
            ControlFrame::EventBatch { .. } => r is AcceptEvents,
            _ => r is Ignore,
        },
{
    match frame {
        ControlFrame::Hello { node_id: hello_node, protocol_version, .. } => {
            if !str_eq(hello_node.as_str(), node_id) {
                reject("control.node_mismatch", "Control hello node id does not match authenticated node", true)
            } else if !str_eq(protocol_version.as_str(), "v1") {
                reject("control.protocol_incompatible", "Control protocol version is incompatible", false)
            } else {
                ServerFrameAction::AcknowledgeHello
            }
        },
        _ => {
            if !str_eq(control_frame_protocol_version(frame), "v1") {
                return reject("control.protocol_incompatible", "Control protocol version is incompatible", false);
            }
            match frame {
                ControlFrame::CommandAck { command_id, status, .. } => ServerFrameAction::UpdateCommand {
                    command_id: command_id.clone(),
                    status: *status,
                },
                ControlFrame::CommandResult { command_id, status, .. } => ServerFrameAction::UpdateCommand {
                    command_id: command_id.clone(),
                    status: *status,
                },
                ControlFrame::EventBatch { .. } => ServerFrameAction::AcceptEvents,
                _ => ServerFrameAction::Ignore,
            }
        },
    }
}

/// The error frame the control plane sends a node it refuses: empty details.
pub fn server_control_error(error_code: &str, message: &str, retryable: bool) -> (r: ControlFrame)
    ensures
        error_frame(r, error_code@, message@, obj0(), retryable),
{
    control_error_frame(error_code, message, json_obj0(), retryable)
}


/// The control plane asks a node to open its control channel when none is connected
/// and commands wait for it.
pub fn should_open_control_channel(connected: bool, waiting_commands: i64) -> (b: bool)
    ensures
        b == (!connected && waiting_commands > 0),
{
    !connected && waiting_commands > 0
}

} // verus!
