//! The status of a job and the rules by which it changes.
//!
//! A job starts as `Pending`. It becomes `Running` when the run request has
//! been handed to the runner's session, and `Completed` or `Failed` when the
//! runner reports the outcome. A job whose runner cannot be reached goes from
//! `Pending` straight to `Failed`. `Completed` and `Failed` are never left.
//!
//! The protocol has no message by which a runner acknowledges an order, so a
//! job counts as `Running` from the moment its session took the order. A
//! runner that disconnects leaves its jobs as they are.

use vstd::prelude::*;
use vstd::string::*;
use crate::errors::ErrorMessage;

verus! {

/// Where a job stands.
#[derive(Clone, Copy, Debug, PartialEq, Eq, Hash, Structural)]
pub enum JobStatus {
    Pending,
    Running,
    Completed,
    Failed,
}

/// What can happen to a job after it was created.
#[derive(Clone, Copy, Debug, PartialEq, Eq, Structural)]
pub enum JobEvent {
    /// The run request was handed to the session of the job's runner.
    Sent,
    /// The runner has no live session, or the session did not take the request.
    Unreachable,
    /// The runner reported how the run ended.
    Reported { successful: bool },
}

/// The status that follows `status` on `event`, or `None` where the event has
/// no place in that status.
pub open spec fn step(status: JobStatus, event: JobEvent) -> Option<JobStatus> {
    match (status, event) {
        (JobStatus::Pending, JobEvent::Sent) => Some(JobStatus::Running),
        (JobStatus::Pending, JobEvent::Unreachable) => Some(JobStatus::Failed),
        (JobStatus::Running, JobEvent::Reported { successful }) => Some(
            if successful {
                JobStatus::Completed
            } else {
                JobStatus::Failed
            },
        ),
        _ => None,
    }
}

/// The status reached from `status` by the events of `events` in order, or
/// `None` where one of them has no place in the status it meets.
pub open spec fn run(status: JobStatus, events: Seq<JobEvent>) -> Option<JobStatus>
    decreases events.len(),
{
    if events.len() == 0 {
        Some(status)
    } else {
        match step(status, events[0]) {
            Some(next) => run(next, events.subrange(1, events.len() as int)),
            None => None,
        }
    }
}

/// The name under which a status is stored.
pub open spec fn status_name(status: JobStatus) -> Seq<char> {
    match status {
        JobStatus::Pending => "pending"@,
        JobStatus::Running => "running"@,
        JobStatus::Completed => "completed"@,
        JobStatus::Failed => "failed"@,
    }
}

impl JobStatus {
    /// How far along a job is: statuses only ever move to a higher rank.
    pub open spec fn rank(self) -> nat {
        match self {
            JobStatus::Pending => 0,
            JobStatus::Running => 1,
            JobStatus::Completed => 2,
            JobStatus::Failed => 2,
        }
    }

    /// Whether the status is one that is never left.
    pub open spec fn terminal(self) -> bool {
        self == JobStatus::Completed || self == JobStatus::Failed
    }

    /// The status of a job that was just created.
    pub fn initial() -> (status: JobStatus)
        ensures
            status == JobStatus::Pending,
    {
        JobStatus::Pending
    }

    /// The name under which the status is stored.
    pub fn value(self) -> (name: &'static str)
        ensures
            name@ == status_name(self),
    {
        match self {
            JobStatus::Pending => "pending",
            JobStatus::Running => "running",
            JobStatus::Completed => "completed",
            JobStatus::Failed => "failed",
        }
    }

    /// The status stored under `name`, if `name` is the name of one.
    pub fn from_value(name: &str) -> (status: Option<JobStatus>)
        ensures
            status matches Some(s) ==> name@ == status_name(s),
            status is None ==> forall|s: JobStatus| name@ != status_name(s),
    {
        let name = String::from_str(name);
        if name == String::from_str("pending") {
            Some(JobStatus::Pending)
        } else if name == String::from_str("running") {
            Some(JobStatus::Running)
        } else if name == String::from_str("completed") {
            Some(JobStatus::Completed)
        } else if name == String::from_str("failed") {
            Some(JobStatus::Failed)
        } else {
            None
        }
    }

    /// Whether the job has ended, well or badly.
    pub fn is_terminal(self) -> (yes: bool)
        ensures
            yes == self.terminal(),
    {
        match self {
            JobStatus::Completed | JobStatus::Failed => true,
            JobStatus::Pending | JobStatus::Running => false,
        }
    }

    /// Whether the job is still on its way: waiting to be sent, or with its runner.
    pub fn is_active(self) -> (yes: bool)
        ensures
            yes == !self.terminal(),
    {
        !self.is_terminal()
    }

    /// The status after `event`. An event that has no place in the current
    /// status is refused and changes nothing.
    pub fn apply(self, event: JobEvent) -> (next: Result<JobStatus, ErrorMessage>)
        ensures
            next == match step(self, event) {
                Some(status) => Ok::<JobStatus, ErrorMessage>(status),
                None => Err(ErrorMessage::InvalidOperationForStatus),
            },
    {
        match (self, event) {
            (JobStatus::Pending, JobEvent::Sent) => Ok(JobStatus::Running),
            (JobStatus::Pending, JobEvent::Unreachable) => Ok(JobStatus::Failed),
            (JobStatus::Running, JobEvent::Reported { successful }) => {
                if successful {
                    Ok(JobStatus::Completed)
                } else {
                    Ok(JobStatus::Failed)
                }
            },
            _ => Err(ErrorMessage::InvalidOperationForStatus),
        }
    }

    /// Whether a new run may be started for something whose latest job is in
    /// this status. It may not while that job is still on its way.
    pub fn check_rerun(self) -> (verdict: Result<(), ErrorMessage>)
        ensures
            verdict == if self.terminal() {
                Ok::<(), ErrorMessage>(())
            } else {
                Err(ErrorMessage::InvalidOperationForStatus)
            },
    {
        if self.is_terminal() {
            Ok(())
        } else {
            Err(ErrorMessage::InvalidOperationForStatus)
        }
    }

    /// The status that a runner's report gives a job: `Completed` for a run
    /// that succeeded, `Failed` for one that did not.
    pub fn from_report(successful: bool) -> (status: JobStatus)
        ensures
            status == if successful {
                JobStatus::Completed
            } else {
                JobStatus::Failed
            },
            step(JobStatus::Running, JobEvent::Reported { successful }) == Some(status),
    {
        if successful {
            JobStatus::Completed
        } else {
            JobStatus::Failed
        }
    }
}

/// No two statuses are stored under one name, so a status that was stored
/// is read back as itself.
pub proof fn lemma_status_names_differ(a: JobStatus, b: JobStatus)
    requires
        status_name(a) == status_name(b),
    ensures
        a == b,
{
    reveal_strlit("pending");
    reveal_strlit("running");
    reveal_strlit("completed");
    reveal_strlit("failed");
    assert("pending"@.len() == 7 && "pending"@[0] == 'p');
    assert("running"@.len() == 7 && "running"@[0] == 'r');
    assert("completed"@.len() == 9);
    assert("failed"@.len() == 6);
}

/// Every step moves a job strictly forward: no status is entered twice and
/// none is reached out of order.
pub proof fn lemma_step_moves_forward(status: JobStatus, event: JobEvent)
    ensures
        step(status, event) matches Some(next) ==> status.rank() < next.rank(),
{
}

/// A job that has ended stays as it is: no event has a place in `Completed`
/// or `Failed`.
pub proof fn lemma_terminal_is_never_left(status: JobStatus, event: JobEvent)
    requires
        status.terminal(),
    ensures
        step(status, event) is None,
{
}

/// `Failed` can be reached from each status that is not terminal.
pub proof fn lemma_failed_is_reachable(status: JobStatus)
    requires
        !status.terminal(),
    ensures
        exists|event: JobEvent| step(status, event) == Some(JobStatus::Failed),
{
    if status == JobStatus::Pending {
        assert(step(status, JobEvent::Unreachable) == Some(JobStatus::Failed));
    } else {
        assert(step(status, JobEvent::Reported { successful: false }) == Some(
            JobStatus::Failed,
        ));
    }
}

/// The life of a job, from its creation on, is a prefix of one of two paths:
/// sent and then reported, or unreachable. So `Running` is entered only from
/// `Pending`, `Completed` only after `Running`, and nothing follows the end.
pub proof fn lemma_life_of_a_job(events: Seq<JobEvent>)
    requires
        run(JobStatus::Pending, events) is Some,
    ensures
        events.len() <= 2,
        events.len() == 0 ==> run(JobStatus::Pending, events) == Some(JobStatus::Pending),
        events.len() == 1 ==> (events[0] == JobEvent::Sent && run(JobStatus::Pending, events)
            == Some(JobStatus::Running)) || (events[0] == JobEvent::Unreachable && run(
            JobStatus::Pending,
            events,
        ) == Some(JobStatus::Failed)),
        events.len() == 2 ==> events[0] == JobEvent::Sent && (events[1] matches JobEvent::Reported {
            successful,
        } && run(JobStatus::Pending, events) == Some(
            if successful {
                JobStatus::Completed
            } else {
                JobStatus::Failed
            },
        )),
{
    if events.len() >= 1 {
        let first = step(JobStatus::Pending, events[0]);
        let rest = events.subrange(1, events.len() as int);
        assert(first is Some);
        if rest.len() >= 1 {
            let second = step(first.unwrap(), rest[0]);
            let tail = rest.subrange(1, rest.len() as int);
            assert(second is Some);
            assert(rest[0] == events[1]);
            if tail.len() >= 1 {
                assert(step(second.unwrap(), tail[0]) is None);
                assert(run(second.unwrap(), tail) is None);
            } else {
                assert(run(second.unwrap(), tail) == second);
            }
        } else {
            assert(run(first.unwrap(), rest) == first);
        }
    }
}

} // verus!
