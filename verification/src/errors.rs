//! The failures that the dispatch core reports.

use vstd::prelude::*;

verus! {

/// A failure that is reported to the party that made a request.
#[derive(Clone, Copy, Debug, PartialEq, Eq, Structural)]
pub enum ErrorMessage {
    /// The credential presented at the handshake is not one that the codec issued.
    InvalidToken,
    /// The transport refused to upgrade the connection.
    WebSocketConnectionError,
    /// The runner that a job is meant for has no live session.
    RunnerUnavailable,
    /// The job or experiment is in a status that does not admit the request.
    InvalidOperationForStatus,
    /// The record that the request names does not exist for this caller.
    NotFound,
}

/// A failure on one inbound frame. The frame is dropped and the socket stays open.
#[derive(Clone, Copy, Debug, PartialEq, Eq, Structural)]
pub enum SocketErrorKind {
    /// The frame is not an envelope of the expected kind and shape.
    InvalidMessage,
}

impl ErrorMessage {
    /// The name of the failure, as it is shown to a caller.
    pub fn name(&self) -> (text: &'static str)
        ensures
            text@ == match *self {
                ErrorMessage::InvalidToken => "InvalidToken"@,
                ErrorMessage::WebSocketConnectionError => "WebSocketConnectionError"@,
                ErrorMessage::RunnerUnavailable => "RunnerUnavailable"@,
                ErrorMessage::InvalidOperationForStatus => "InvalidOperationForStatus"@,
                ErrorMessage::NotFound => "NotFound"@,
            },
    {
        match self {
            ErrorMessage::InvalidToken => "InvalidToken",
            ErrorMessage::WebSocketConnectionError => "WebSocketConnectionError",
            ErrorMessage::RunnerUnavailable => "RunnerUnavailable",
            ErrorMessage::InvalidOperationForStatus => "InvalidOperationForStatus",
            ErrorMessage::NotFound => "NotFound",
        }
    }
}

} // verus!
