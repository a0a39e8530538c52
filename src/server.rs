//! The protocol dispatcher: message variants and the routing decisions
//! between a caller and the execution engine.
//!
//! A host handles one inbound message by calling `McpMessage::dispatch`.
//! `Dispatch::Run` asks it to execute the request through the engine and hand
//! the engine's result to `McpMessage::execution_reply`; `Dispatch::Reply` is
//! the answer itself; `Dispatch::Reject` is a hard protocol failure.

use crate::error::Error;
use crate::sandbox::{
    concludes,
    spawn_failure_text,
    timeout_text,
    ExecutionRequest,
    ExecutionResponse,
    RunOutcome,
};
use vstd::prelude::*;
use vstd::string::*;

verus! {

/// Detail of the protocol error for a reply-only message sent as a request.
pub const INVALID_REQUEST_TYPE: &'static str = "Invalid message type for request";

/// Protocol message types. `id` is an opaque correlation token chosen by the
/// caller and copied into the reply.
#[derive(Debug, Clone)]
pub enum McpMessage {
    /// Execute a command in the sandbox.
    Execute { id: String, request: ExecutionRequest },
    /// Response to an execution.
    ExecuteResponse { id: String, response: ExecutionResponse },
    /// Error response.
    Error { id: String, message: String },
    /// Liveness probe.
    Ping { id: String },
    /// Answer to a liveness probe.
    Pong { id: String },
}

/// What handling an inbound message asks of the host.
#[derive(Debug, Clone)]
pub enum Dispatch {
    /// Execute `request` and answer with `McpMessage::execution_reply(id, ..)`.
    Run { id: String, request: ExecutionRequest },
    /// Answer with this message; the engine is not involved.
    Reply(McpMessage),
    /// Fail the call itself: the caller broke the protocol.
    Reject(Error),
}

/// The message is one that only a server sends.
pub open spec fn is_reply_only(m: McpMessage) -> bool {
    match m {
        McpMessage::ExecuteResponse { .. } | McpMessage::Error { .. } | McpMessage::Pong { .. } => true,
        _ => false,
    }
}

/// `e` is the protocol error for a reply-only message sent as a request.
pub open spec fn is_invalid_request_error(e: Error) -> bool {
    match e {
        Error::Protocol(s) => s@ == INVALID_REQUEST_TYPE@,
        _ => false,
    }
}

/// `d` is what the dispatcher decides for the inbound message `m`.
pub open spec fn dispatches(m: McpMessage, d: Dispatch) -> bool {
    match m {
        McpMessage::Execute { id, request } => d == (Dispatch::Run { id, request }),
        McpMessage::Ping { id } => d == Dispatch::Reply(McpMessage::Pong { id }),
        _ => match d {
            Dispatch::Reject(e) => is_invalid_request_error(e),
            _ => false,
        },
    }
}

/// `reply` answers the request `id` whose execution gave `result`: a
/// response on success, and an error reply carrying the error's text on
/// failure.
pub open spec fn replies(id: String, result: Result<ExecutionResponse, Error>, reply: McpMessage) -> bool {
    match result {
        Ok(response) => reply == (McpMessage::ExecuteResponse { id, response }),
        Err(e) => match reply {
            McpMessage::Error { id: rid, message } => rid == id && message@ == e.text(),
            _ => false,
        },
    }
}

impl McpMessage {
    /// Route an inbound message: an execution request goes to the engine,
    /// a ping is answered with a pong of the same id, and any reply-only
    /// variant is rejected as a protocol error.
    pub fn dispatch(self) -> (r: Dispatch)
        ensures
            dispatches(self, r),
    {
        match self {
            McpMessage::Execute { id, request } => Dispatch::Run { id, request },
            McpMessage::Ping { id } => Dispatch::Reply(McpMessage::Pong { id }),
            _ => Dispatch::Reject(Error::Protocol(String::from_str(INVALID_REQUEST_TYPE))),
        }
    }

    /// The reply to the execution request `id`. Engine failures become an
    /// `Error` reply under the same id rather than a failed call.
    pub fn execution_reply(id: String, result: Result<ExecutionResponse, Error>) -> (r: McpMessage)
        ensures
            replies(id, result, r),
    {
        match result {
            Ok(response) => McpMessage::ExecuteResponse { id, response },
            Err(e) => McpMessage::Error { id, message: e.message() },
        }
    }
}

/// An execution request whose program cannot be spawned is answered, not
/// failed: the reply is an `Error` message under the request's id, and its
/// text ends with the underlying cause.
pub proof fn spawn_failure_is_soft(
    secs: u64,
    cause: String,
    id: String,
    result: Result<ExecutionResponse, Error>,
    reply: McpMessage,
)
    requires
        concludes(secs, RunOutcome::SpawnFailed { cause }, result),
        replies(id, result, reply),
    ensures
        reply matches McpMessage::Error { id: rid, message } && rid == id && message@.len()
            >= cause@.len() && message@.subrange(
            message@.len() - cause@.len(),
            message@.len() as int,
        ) == cause@,
{
    if let McpMessage::Error { id: rid, message } = reply {
        let prefix = "Sandbox execution error: "@ + "Command execution failed: "@;
        assert(message@ == "Sandbox execution error: "@ + spawn_failure_text(cause@));
        assert(message@ =~= prefix + cause@);
        assert(message@.subrange(prefix.len() as int, message@.len() as int) =~= cause@);
    }
}

/// An execution request that outruns the budget of `secs` seconds is
/// answered, not failed: the reply is an `Error` message under the request's
/// id whose text states the budget in decimal.
pub proof fn timeout_is_soft(
    secs: u64,
    id: String,
    result: Result<ExecutionResponse, Error>,
    reply: McpMessage,
)
    requires
        concludes(secs, RunOutcome::TimedOut, result),
        replies(id, result, reply),
    ensures
        reply matches McpMessage::Error { id: rid, message } && rid == id && message@ == "Sandbox execution error: "@
            + timeout_text(secs as nat),
{
}

/// A reply-only message sent as a request is always rejected with the
/// protocol error, whatever its payload.
pub proof fn reply_only_is_rejected(m: McpMessage, d: Dispatch)
    requires
        is_reply_only(m),
        dispatches(m, d),
    ensures
        d matches Dispatch::Reject(e) && is_invalid_request_error(e),
{
}

} // verus!
