//! The runner's side of the socket: when to connect, how long to wait after
//! a failed attempt, and what to do with each frame that arrives.
//!
//! A connection is `Disconnected`, `Connecting` or `Connected`. Each failed
//! attempt moves one place further along a fixed schedule of delays, up to
//! its last entry; a successful one goes back to its start. The socket, the
//! timer and the executor belong to the caller: the methods here say what is
//! to be done next, and the caller reports back how it went.

use vstd::prelude::*;
use vstd::string::*;
use vstd::utf8::*;
use crate::errors::SocketErrorKind;
use crate::frame::{payload_text, Frame, TransportError};
use crate::protocol::{
    decode_run_experiment,
    encode_run_result,
    run_experiment_in,
    run_result_text,
    RunExperiment,
    RunResult,
};

verus! {

/// The number of entries in the schedule of delays.
pub const MAX_TIMING: usize = 5;

/// The seconds to wait before the next attempt, by the number of attempts
/// that have failed in a row.
pub const TIMINGS: [u8; MAX_TIMING] = [0, 2, 4, 6, 8];

/// The schedule of delays, in seconds.
pub open spec fn schedule() -> Seq<u8> {
    seq![0u8, 2u8, 4u8, 6u8, 8u8]
}

/// The place in the schedule after one more failed attempt: one further,
/// but never past the last entry.
pub open spec fn after_failure(index: nat) -> nat {
    if index + 1 < schedule().len() {
        index + 1
    } else {
        (schedule().len() - 1) as nat
    }
}

/// The place in the schedule after `count` failed attempts in a row,
/// starting from `index`.
pub open spec fn after_failures(index: nat, count: nat) -> nat
    decreases count,
{
    if count == 0 {
        index
    } else {
        after_failure(after_failures(index, (count - 1) as nat))
    }
}

/// Why an attempt to connect failed.
#[derive(Clone, Copy, Debug, PartialEq, Eq, Structural)]
pub enum Error {
    ServerNotReachable,
}

/// Where a connection stands.
#[derive(Clone, Copy, Debug, PartialEq, Eq, Structural)]
pub enum ConnectionState {
    /// No socket, and no attempt under way.
    Disconnected,
    /// An attempt to connect is under way.
    Connecting,
    /// The socket is open.
    Connected,
}

/// How an executor ended the run it was given.
#[derive(Clone, Copy, Debug, PartialEq, Eq, Structural)]
pub enum ExecutorOutcome {
    /// The run ended, and the executor says whether it went well.
    Finished { successful: bool },
    /// The executor itself failed and has nothing to say about the run.
    Failed,
}

/// What is to be done with a frame that arrived.
#[derive(Clone, Debug, PartialEq, Eq)]
pub enum FrameAction {
    /// Nothing: the frame carries no message.
    Ignore,
    /// Hand the order to the executor.
    Execute(RunExperiment),
    /// Put this text on the socket.
    Send(String),
}

/// The runner's connection to the coordinator.
pub struct Connection {
    server_url: String,
    access_token: String,
    state: ConnectionState,
    // the place in the schedule of the delay before the next attempt
    current_timing_index: usize,
    executor: bool,
}

/// What a connection is, to its contracts.
pub struct ConnectionView {
    pub server_url: Seq<char>,
    pub access_token: Seq<char>,
    pub state: ConnectionState,
    pub timing_index: nat,
    pub executor: bool,
}

impl View for Connection {
    type V = ConnectionView;

    closed spec fn view(&self) -> ConnectionView {
        ConnectionView {
            server_url: self.server_url@,
            access_token: self.access_token@,
            state: self.state,
            timing_index: self.current_timing_index as nat,
            executor: self.executor,
        }
    }
}

/// The address to connect to: the coordinator's address with the token as
/// its `token` parameter.
pub open spec fn endpoint(server_url: Seq<char>, access_token: Seq<char>) -> Seq<char> {
    server_url + "?token="@ + access_token
}

/// What `frame` carries for a runner: a text frame carries the order that
/// its text holds, and is an invalid message where it holds none. Every
/// other frame carries nothing.
pub open spec fn frame_outcome(frame: Frame) -> Result<
    Option<(i64, Seq<char>)>,
    SocketErrorKind,
> {
    match frame {
        Frame::Text(bytes) => {
            if valid_utf8(bytes@) && run_experiment_in(decode_utf8(bytes@)) is Some {
                Ok(run_experiment_in(decode_utf8(bytes@)))
            } else {
                Err(SocketErrorKind::InvalidMessage)
            }
        },
        _ => Ok(None),
    }
}

/// Whether `action` is what the connection `connection` owes the order to
/// run `code` as the job `job_id`: the order goes to the executor where one
/// is attached; else the job is reported as failed where the socket is open,
/// and passed over where it is not.
pub open spec fn action_for_order(
    action: FrameAction,
    connection: ConnectionView,
    job_id: i64,
    code: Seq<char>,
) -> bool {
    if connection.executor {
        action matches FrameAction::Execute(order) && order.job_id == job_id && order.code@ == code
    } else if connection.state == ConnectionState::Connected {
        action matches FrameAction::Send(text) && text@ == run_result_text(job_id, false)
    } else {
        action == FrameAction::Ignore
    }
}

fn delay_at(index: usize) -> (seconds: u8)
    requires
        index < MAX_TIMING,
    ensures
        seconds == schedule()[index as int],
{
    TIMINGS[index]
}

impl Connection {
    /// A connection to the coordinator at `server_url` that presents
    /// `access_token`. It starts disconnected, at the start of the schedule,
    /// and without an executor.
    pub fn new(server_url: String, access_token: String) -> (connection: Connection)
        ensures
            connection@ == (ConnectionView {
                server_url: server_url@,
                access_token: access_token@,
                state: ConnectionState::Disconnected,
                timing_index: 0,
                executor: false,
            }),
    {
        Connection {
            server_url,
            access_token,
            state: ConnectionState::Disconnected,
            current_timing_index: 0,
            executor: false,
        }
    }

    /// Where the connection stands.
    pub fn state(&self) -> (state: ConnectionState)
        ensures
            state == self@.state,
    {
        self.state
    }

    /// The number of attempts that count as failed in a row, capped at the
    /// last place of the schedule.
    pub fn timing_index(&self) -> (index: usize)
        ensures
            index == self@.timing_index,
    {
        self.current_timing_index
    }

    /// Whether an executor is attached.
    pub fn has_executor(&self) -> (attached: bool)
        ensures
            attached == self@.executor,
    {
        self.executor
    }

    /// Notes that an executor is attached (`attached`) or gone.
    pub fn update_executor(&mut self, attached: bool)
        ensures
            final(self)@ == (ConnectionView { executor: attached, ..old(self)@ }),
    {
        self.executor = attached;
    }

    /// The address to connect to.
    pub fn connect(&self) -> (url: String)
        ensures
            url@ == endpoint(self@.server_url, self@.access_token),
    {
        let mut url = self.server_url.clone();
        url.append("?token=");
        url.append(self.access_token.as_str());
        url
    }

    /// Begins an attempt to connect. The result is the address to connect
    /// to; the caller reports the outcome to `connect_finished`.
    pub fn try_connect(&mut self) -> (url: String)
        ensures
            final(self)@ == (ConnectionView { state: ConnectionState::Connecting, ..old(self)@ }),
            url@ == endpoint(old(self)@.server_url, old(self)@.access_token),
    {
        self.state = ConnectionState::Connecting;
        self.connect()
    }

    /// Takes in the outcome of an attempt to connect. After a success the
    /// connection is `Connected`, the schedule starts over, and nothing is
    /// to be waited for. After a failure the connection is `Disconnected`,
    /// one place further along the schedule, and the result is the number of
    /// seconds to wait before `try_connect` is called again.
    pub fn connect_finished(&mut self, outcome: Result<(), Error>) -> (delay: Option<u64>)
        ensures
            outcome is Ok ==> delay.is_none() && final(self)@ == (ConnectionView {
                state: ConnectionState::Connected,
                timing_index: 0,
                ..old(self)@
            }),
            outcome is Err ==> final(self)@ == (ConnectionView {
                state: ConnectionState::Disconnected,
                timing_index: after_failure(old(self)@.timing_index),
                ..old(self)@
            }) && delay == Some(schedule()[after_failure(old(self)@.timing_index) as int] as u64),
    {
        match outcome {
            Ok(()) => {
                self.state = ConnectionState::Connected;
                // we have connected now, reset timing
                self.current_timing_index = 0;
                None
            },
            Err(_) => {
                self.state = ConnectionState::Disconnected;
                self.current_timing_index = if self.current_timing_index >= MAX_TIMING - 1 {
                    MAX_TIMING - 1
                } else {
                    self.current_timing_index + 1
                };
                Some(delay_at(self.current_timing_index) as u64)
            },
        }
    }

    /// The action that `frame` calls for. An order is handed to the
    /// executor. Where there is nobody to run it, it is answered at once as
    /// failed, provided that the socket is open. The connection itself does
    /// not change.
    pub fn handle_frame(&self, frame: Frame) -> (action: Result<FrameAction, SocketErrorKind>)
        ensures
            match frame_outcome(frame) {
                Ok(Some((job_id, code))) => action is Ok && action_for_order(
                    action->Ok_0,
                    self@,
                    job_id,
                    code,
                ),
                Ok(None) => action == Ok::<FrameAction, SocketErrorKind>(FrameAction::Ignore),
                Err(error) => action == Err::<FrameAction, SocketErrorKind>(error),
            },
    {
        match frame {
            Frame::Text(bytes) => {
                let text = match payload_text(bytes) {
                    Some(text) => text,
                    None => {
                        return Err(SocketErrorKind::InvalidMessage);
                    },
                };
                let order = match decode_run_experiment(text.as_str()) {
                    Ok(order) => order,
                    Err(error) => {
                        return Err(error);
                    },
                };
                if self.executor {
                    Ok(FrameAction::Execute(order))
                } else if self.state == ConnectionState::Connected {
                    let failed = RunResult { job_id: order.job_id, successful: false };
                    Ok(FrameAction::Send(encode_run_result(&failed)))
                } else {
                    Ok(FrameAction::Ignore)
                }
            },
            _ => Ok(FrameAction::Ignore),
        }
    }

    /// The action that an item of the socket's stream calls for. A frame
    /// that cannot be read and a failure of the stream are both passed over:
    /// neither closes the connection.
    pub fn handle(&self, item: Result<Frame, TransportError>) -> (action: FrameAction)
        ensures
            match item {
                Ok(frame) => match frame_outcome(frame) {
                    Ok(Some((job_id, code))) => action_for_order(action, self@, job_id, code),
                    _ => action == FrameAction::Ignore,
                },
                Err(_) => action == FrameAction::Ignore,
            },
    {
        match item {
            Ok(frame) => match self.handle_frame(frame) {
                Ok(action) => action,
                Err(_) => FrameAction::Ignore,
            },
            Err(_) => FrameAction::Ignore,
        }
    }

    /// The report to send when the executor is done with the job `job_id`.
    /// A run counts as successful only if the executor finished it and said
    /// so; an executor that failed still has the job reported, as failed.
    /// There is nothing to send on while the socket is not open.
    pub fn job_finished(&self, job_id: i64, outcome: ExecutorOutcome) -> (text: Option<String>)
        ensures
            self@.state != ConnectionState::Connected ==> text.is_none(),
            self@.state == ConnectionState::Connected ==> (text matches Some(t) && t@
                == run_result_text(
                job_id,
                outcome == (ExecutorOutcome::Finished { successful: true }),
            )),
    {
        if self.state == ConnectionState::Connected {
            let successful = match outcome {
                ExecutorOutcome::Finished { successful } => successful,
                ExecutorOutcome::Failed => false,
            };
            Some(encode_run_result(&RunResult { job_id, successful }))
        } else {
            None
        }
    }

    /// Takes in that the socket was closed, and begins the next attempt at
    /// once. The place in the schedule stays as it is.
    pub fn finished(&mut self) -> (url: String)
        ensures
            final(self)@ == (ConnectionView { state: ConnectionState::Connecting, ..old(self)@ }),
            url@ == endpoint(old(self)@.server_url, old(self)@.access_token),
    {
        self.state = ConnectionState::Disconnected;
        self.try_connect()
    }

    /// Begins the first attempt to connect.
    pub fn started(&mut self) -> (url: String)
        ensures
            final(self)@ == (ConnectionView { state: ConnectionState::Connecting, ..old(self)@ }),
            url@ == endpoint(old(self)@.server_url, old(self)@.access_token),
    {
        self.try_connect()
    }
}

/// After `count` failed attempts in a row, counted from the start of the
/// schedule, the place in the schedule is `count`, or the last place where
/// `count` is beyond it.
pub proof fn lemma_place_after_failures(count: nat)
    ensures
        after_failures(0, count) == if count < schedule().len() - 1 {
            count
        } else {
            (schedule().len() - 1) as nat
        },
    decreases count,
{
    if count > 0 {
        lemma_place_after_failures((count - 1) as nat);
    }
}

/// The first failure after a success waits for the second entry of the
/// schedule: a success puts the connection at the start, whatever came before.
pub proof fn lemma_first_delay_after_success()
    ensures
        after_failure(0) == 1,
        schedule()[after_failure(0) as int] == 2,
{
}

/// The place in the schedule never leaves the schedule.
pub proof fn lemma_place_stays_in_schedule(index: nat)
    ensures
        after_failure(index) < schedule().len(),
{
}

} // verus!
