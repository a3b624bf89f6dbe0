//! The coordinator's side of one runner's socket.
//!
//! A session speaks for one runner. It tells the registry when it opens and,
//! once, when it closes; it reads the runner's reports off the socket and
//! writes the coordinator's orders onto it.

use vstd::prelude::*;
use vstd::utf8::*;
use crate::errors::SocketErrorKind;
use crate::frame::{payload_text, Frame};
use crate::json::json_quoted;
use crate::protocol::{
    decode_run_result,
    encode_run_experiment,
    run_experiment_text,
    run_result_in,
    RunExperiment,
    RunResult,
};
use crate::registry::ServerMessage;

verus! {

/// One runner's live connection, as the coordinator holds it.
#[derive(Debug, PartialEq, Eq)]
pub struct Session {
    runner_id: i64,
    handle: u64,
    registered: bool,
}

/// What a session is, to its contracts.
pub struct SessionView {
    pub runner_id: i64,
    pub handle: u64,
    /// Whether the registry was told of this session and not yet told that
    /// it closed.
    pub registered: bool,
}

impl View for Session {
    type V = SessionView;

    closed spec fn view(&self) -> SessionView {
        SessionView { runner_id: self.runner_id, handle: self.handle, registered: self.registered }
    }
}

/// What `frame` carries for the coordinator: a text frame carries the report
/// that its text holds, and is an invalid message where it holds none. Every
/// other frame carries nothing.
pub open spec fn report_in(frame: Frame) -> Result<Option<RunResult>, SocketErrorKind> {
    match frame {
        Frame::Text(bytes) => {
            if valid_utf8(bytes@) && run_result_in(decode_utf8(bytes@)) is Some {
                Ok(run_result_in(decode_utf8(bytes@)))
            } else {
                Err(SocketErrorKind::InvalidMessage)
            }
        },
        _ => Ok(None),
    }
}

impl Session {
    /// The session `handle` for the runner `runner_id`. The registry does not
    /// know of it yet.
    pub fn new(runner_id: i64, handle: u64) -> (session: Session)
        ensures
            session@ == (SessionView { runner_id, handle, registered: false }),
    {
        Session { runner_id, handle, registered: false }
    }

    /// The runner that this session speaks for.
    pub fn runner_id(&self) -> (id: i64)
        ensures
            id == self@.runner_id,
    {
        self.runner_id
    }

    /// The handle under which the registry knows this session.
    pub fn handle(&self) -> (handle: u64)
        ensures
            handle == self@.handle,
    {
        self.handle
    }

    /// Whether the registry was told of this session and not yet told that
    /// it closed.
    pub fn is_registered(&self) -> (registered: bool)
        ensures
            registered == self@.registered,
    {
        self.registered
    }

    /// The socket is open: the result is what to tell the registry.
    pub fn started(&mut self) -> (message: ServerMessage)
        ensures
            final(self)@ == (SessionView { registered: true, ..old(self)@ }),
            message == (ServerMessage::Connect {
                runner_id: old(self)@.runner_id,
                handle: old(self)@.handle,
            }),
    {
        self.registered = true;
        ServerMessage::Connect { runner_id: self.runner_id, handle: self.handle }
    }

    /// The socket has closed: the result is what to tell the registry, if
    /// anything. The registry is told once; after that, and for a session
    /// that never opened, there is nothing to tell.
    pub fn stopped(&mut self) -> (message: Option<ServerMessage>)
        ensures
            final(self)@ == (SessionView { registered: false, ..old(self)@ }),
            message == if old(self)@.registered {
                Some(
                    ServerMessage::Disconnect {
                        runner_id: old(self)@.runner_id,
                        handle: old(self)@.handle,
                    },
                )
            } else {
                None
            },
    {
        if self.registered {
            self.registered = false;
            Some(ServerMessage::Disconnect { runner_id: self.runner_id, handle: self.handle })
        } else {
            None
        }
    }

    /// What to tell the registry of a frame that arrived: the runner's
    /// report, where the frame carries one.
    pub fn handle_frame(&self, frame: Frame) -> (message: Result<
        Option<ServerMessage>,
        SocketErrorKind,
    >)
        ensures
            message == match report_in(frame) {
                Ok(Some(result)) => Ok::<Option<ServerMessage>, SocketErrorKind>(
                    Some(ServerMessage::Result(result)),
                ),
                Ok(None) => Ok(None),
                Err(error) => Err(error),
            },
    {
        match frame {
            Frame::Text(bytes) => {
                let text = match payload_text(bytes) {
                    Some(text) => text,
                    None => {
                        return Err(SocketErrorKind::InvalidMessage);
                    },
                };
                match decode_run_result(text.as_str()) {
                    Ok(result) => Ok(Some(ServerMessage::Result(result))),
                    Err(error) => Err(error),
                }
            },
            _ => Ok(None),
        }
    }

    /// The text to put on the socket for `order`.
    pub fn send(&self, order: &RunExperiment) -> (text: Result<String, SocketErrorKind>)
        ensures
            match json_quoted(order.code@) {
                Some(quoted) => text matches Ok(t) && t@ == run_experiment_text(
                    order.job_id,
                    quoted,
                ),
                None => text == Err::<String, SocketErrorKind>(SocketErrorKind::InvalidMessage),
            },
    {
        encode_run_experiment(order)
    }
}

} // verus!
