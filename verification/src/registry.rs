//! The coordinator's registry of live sessions.
//!
//! The registry maps a runner to the handle of the one session that
//! currently speaks for it. A runner that connects again displaces its old
//! entry; a session that closes removes only its own. The registry is
//! process-local and starts empty.

use vstd::prelude::*;
use vstd::string::*;
use std::collections::HashMap;
use crate::errors::ErrorMessage;
use crate::protocol::{RunExperiment, RunResult};
use crate::status::JobStatus;

verus! {

broadcast use vstd::std_specs::hash::group_hash_axioms;

/// The live sessions, each under the number of its runner.
pub struct ExperimentServer {
    sessions: HashMap<i64, u64>,
}

/// A run order together with the session that is to carry it.
#[derive(Debug, PartialEq, Eq)]
pub struct Delivery {
    /// The handle of the session that speaks for the job's runner.
    pub handle: u64,
    /// The order to put on that session's socket.
    pub message: RunExperiment,
}

/// The change of status that a runner's report asks the store to make.
#[derive(Clone, Copy, Debug, PartialEq, Eq, Structural)]
pub struct StatusUpdate {
    pub job_id: i64,
    pub status: JobStatus,
}

/// What a session tells the registry.
#[derive(Clone, Copy, Debug, PartialEq, Eq, Structural)]
pub enum ServerMessage {
    /// The session `handle` now speaks for the runner `runner_id`.
    Connect { runner_id: i64, handle: u64 },
    /// The session `handle` of the runner `runner_id` has closed.
    Disconnect { runner_id: i64, handle: u64 },
    /// The runner reported the end of a job.
    Result(RunResult),
}

/// The sessions after the registry has taken `message` in.
pub open spec fn after_message(sessions: Map<i64, u64>, message: ServerMessage) -> Map<i64, u64> {
    match message {
        ServerMessage::Connect { runner_id, handle } => sessions.insert(runner_id, handle),
        ServerMessage::Disconnect { runner_id, handle } => without_session(
            sessions,
            runner_id,
            handle,
        ),
        ServerMessage::Result(_) => sessions,
    }
}

/// The sessions that remain when the session `handle` of the runner
/// `runner_id` signs off: its entry goes if it is still the one registered,
/// and nothing changes otherwise.
pub open spec fn without_session(sessions: Map<i64, u64>, runner_id: i64, handle: u64) -> Map<
    i64,
    u64,
> {
    if sessions.contains_key(runner_id) && sessions[runner_id] == handle {
        sessions.remove(runner_id)
    } else {
        sessions
    }
}

impl View for ExperimentServer {
    type V = Map<i64, u64>;

    closed spec fn view(&self) -> Map<i64, u64> {
        self.sessions@
    }
}

impl ExperimentServer {
    /// A registry with no session in it.
    pub fn new() -> (server: ExperimentServer)
        ensures
            server@ == Map::<i64, u64>::empty(),
    {
        ExperimentServer { sessions: HashMap::new() }
    }

    /// The number of runners that have a live session.
    pub fn len(&self) -> (count: usize)
        ensures
            count == self@.len(),
            self@.dom().finite(),
    {
        self.sessions.len()
    }

    /// The handle of the session that speaks for `runner_id`, if there is one.
    pub fn session_of(&self, runner_id: i64) -> (handle: Option<u64>)
        ensures
            handle == if self@.contains_key(runner_id) {
                Some(self@[runner_id])
            } else {
                None
            },
    {
        match self.sessions.get(&runner_id) {
            Some(handle) => Some(*handle),
            None => None,
        }
    }

    /// Makes `handle` the session of `runner_id`. An entry that the runner
    /// already had is displaced; its session is not told.
    pub fn register(&mut self, runner_id: i64, handle: u64)
        ensures
            final(self)@ == old(self)@.insert(runner_id, handle),
    {
        self.sessions.insert(runner_id, handle);
    }

    /// Signs the session `handle` of `runner_id` off. The entry is removed
    /// only if `handle` is the one registered; the result says whether it was.
    pub fn deregister(&mut self, runner_id: i64, handle: u64) -> (removed: bool)
        ensures
            final(self)@ == without_session(old(self)@, runner_id, handle),
            removed == (old(self)@.contains_key(runner_id) && old(self)@[runner_id] == handle),
    {
        match self.session_of(runner_id) {
            Some(current) => {
                if current == handle {
                    self.sessions.remove(&runner_id);
                    true
                } else {
                    false
                }
            },
            None => false,
        }
    }

    /// Routes the job `job_id` to the session of `runner_id`. Where the
    /// runner has no live session the answer is `RunnerUnavailable`, at
    /// once; else it is the order and the handle of the session that is to
    /// send it.
    pub fn dispatch(&self, job_id: i64, runner_id: i64, code: &str) -> (outcome: Result<
        Delivery,
        ErrorMessage,
    >)
        ensures
            self@.contains_key(runner_id) ==> (outcome matches Ok(delivery) && delivery.handle
                == self@[runner_id] && delivery.message.job_id == job_id
                && delivery.message.code@ == code@),
            !self@.contains_key(runner_id) ==> outcome == Err::<Delivery, ErrorMessage>(
                ErrorMessage::RunnerUnavailable,
            ),
    {
        match self.session_of(runner_id) {
            Some(handle) => Ok(
                Delivery { handle, message: RunExperiment { job_id, code: String::from_str(code) } },
            ),
            None => Err(ErrorMessage::RunnerUnavailable),
        }
    }

    /// Takes in what a session tells the registry. A session that connects
    /// is registered, one that closes is signed off, and a report comes back
    /// as the change of status that the store is to make.
    pub fn handle(&mut self, message: ServerMessage) -> (update: Option<StatusUpdate>)
        ensures
            final(self)@ == after_message(old(self)@, message),
            update == match message {
                ServerMessage::Result(result) => Some(
                    StatusUpdate {
                        job_id: result.job_id,
                        status: if result.successful {
                            JobStatus::Completed
                        } else {
                            JobStatus::Failed
                        },
                    },
                ),
                _ => None,
            },
    {
        match message {
            ServerMessage::Connect { runner_id, handle } => {
                self.register(runner_id, handle);
                None
            },
            ServerMessage::Disconnect { runner_id, handle } => {
                self.deregister(runner_id, handle);
                None
            },
            ServerMessage::Result(result) => Some(self.report_result(result)),
        }
    }

    /// Turns a runner's report into the change of status that the store is
    /// to make: `Completed` for a run that succeeded, `Failed` for one that
    /// did not. Nothing is retried.
    pub fn report_result(&self, result: RunResult) -> (update: StatusUpdate)
        ensures
            update.job_id == result.job_id,
            update.status == if result.successful {
                JobStatus::Completed
            } else {
                JobStatus::Failed
            },
    {
        StatusUpdate { job_id: result.job_id, status: JobStatus::from_report(result.successful) }
    }
}

/// A runner has one entry at most: registering a runner that is already
/// registered replaces its entry, and the number of entries stays the same.
pub proof fn lemma_register_replaces(sessions: Map<i64, u64>, runner_id: i64, handle: u64)
    requires
        sessions.dom().finite(),
        sessions.contains_key(runner_id),
    ensures
        sessions.insert(runner_id, handle).dom() == sessions.dom(),
        sessions.insert(runner_id, handle).len() == sessions.len(),
        sessions.insert(runner_id, handle)[runner_id] == handle,
{
    assert(sessions.insert(runner_id, handle).dom() =~= sessions.dom());
}

/// Signing off twice is the same as signing off once.
pub proof fn lemma_deregister_is_idempotent(sessions: Map<i64, u64>, runner_id: i64, handle: u64)
    ensures
        without_session(without_session(sessions, runner_id, handle), runner_id, handle)
            == without_session(sessions, runner_id, handle),
{
}

/// A session that was displaced cannot remove the entry of the session that
/// displaced it.
pub proof fn lemma_stale_deregister_keeps_live_entry(
    sessions: Map<i64, u64>,
    runner_id: i64,
    stale: u64,
    live: u64,
)
    requires
        stale != live,
    ensures
        without_session(sessions.insert(runner_id, live), runner_id, stale) == sessions.insert(
            runner_id,
            live,
        ),
        without_session(
            without_session(sessions.insert(runner_id, live), runner_id, stale),
            runner_id,
            stale,
        ).contains_pair(runner_id, live),
{
}

/// Signing a session off leaves the entries of all other runners alone.
pub proof fn lemma_deregister_is_local(
    sessions: Map<i64, u64>,
    runner_id: i64,
    handle: u64,
    other: i64,
)
    requires
        other != runner_id,
    ensures
        without_session(sessions, runner_id, handle).contains_key(other) == sessions.contains_key(
            other,
        ),
        sessions.contains_key(other) ==> without_session(sessions, runner_id, handle)[other]
            == sessions[other],
{
}

} // verus!
