//! The decisions behind the two requests that reach the dispatch core: a
//! runner that asks to join, and a user who asks for an experiment to be run.
//!
//! Storage and sockets belong to the caller. It looks the records up, hands
//! them in, and carries out what comes back.

use vstd::prelude::*;
use vstd::string::*;
use crate::errors::ErrorMessage;
use crate::models::{Experiment, Job, Runner};
use crate::protocol::RunResult;
use crate::registry::{Delivery, ExperimentServer};
use crate::session::{Session, SessionView};
use crate::status::{step, JobEvent, JobStatus};
use crate::token::{token_text, RunnerToken, TokenCodec};

verus! {

/// The job that a request to run an experiment asks the store to create.
#[derive(Clone, Debug, PartialEq, Eq)]
pub struct NewJob {
    pub experiment_id: i64,
    pub runner_id: i64,
    /// The experiment's code at the time of the request.
    pub code: String,
}

impl NewJob {
    /// The job as the store created it, under the number `id`.
    pub fn created(self, id: i64) -> (job: Job)
        ensures
            job.id == id,
            job.experiment_id == self.experiment_id,
            job.runner_id == self.runner_id,
            job.code == self.code,
            job.status == JobStatus::Pending,
    {
        Job {
            id,
            experiment_id: self.experiment_id,
            runner_id: self.runner_id,
            code: self.code,
            status: JobStatus::Pending,
        }
    }
}

/// Reads the token that a runner presents when it asks to join. A text that
/// is not a token of `codec` is an `InvalidToken`, whatever is wrong with it.
pub fn read_token(codec: &TokenCodec, token: &str) -> (payload: Result<RunnerToken, ErrorMessage>)
    ensures
        payload matches Ok(p) ==> token@ == token_text(codec.key(), p.access_key@),
        payload matches Err(e) ==> e == ErrorMessage::InvalidToken,
        forall|access_key: Seq<char>|
            token@ == token_text(codec.key(), access_key) ==> (payload matches Ok(p)
                && p.access_key@ == access_key),
{
    codec.decode(token)
}

/// Admits a runner whose token was read. `runner` is the record that the
/// store holds under the token's access key, if it holds one. A runner
/// without a record, or with a record under another key, is not admitted;
/// one with a record gets a session under `handle`, which the registry does
/// not know of yet.
pub fn join_server(payload: &RunnerToken, runner: Option<&Runner>, handle: u64) -> (session: Result<
    Session,
    ErrorMessage,
>)
    ensures
        match runner {
            Some(record) if record.access_key@ == payload.access_key@ => session matches Ok(s)
                && s@ == (SessionView { runner_id: record.id, handle, registered: false }),
            _ => session == Err::<Session, ErrorMessage>(ErrorMessage::NotFound),
        },
{
    match runner {
        Some(record) => {
            if record.access_key == payload.access_key {
                Ok(Session::new(record.id, handle))
            } else {
                Err(ErrorMessage::NotFound)
            }
        },
        None => Err(ErrorMessage::NotFound),
    }
}

/// Decides on a request to run `experiment` on `runner`. `latest` is the
/// newest job of the experiment, if it has one. The request is refused
/// with `NotFound` where the caller has no such experiment or there is no
/// such runner, and with `InvalidOperationForStatus` while the newest job is
/// still `Pending` or `Running`. Else the result is the job to create, with
/// the experiment's code as it is now.
pub fn run_experiment(
    experiment: Option<&Experiment>,
    runner: Option<&Runner>,
    latest: Option<&Job>,
) -> (job: Result<NewJob, ErrorMessage>)
    ensures
        match (experiment, runner) {
            (Some(e), Some(r)) => if latest is Some && !latest->0.status.terminal() {
                job == Err::<NewJob, ErrorMessage>(ErrorMessage::InvalidOperationForStatus)
            } else {
                job matches Ok(new) && new.experiment_id == e.id && new.runner_id == r.id
                    && new.code@ == e.code@
            },
            _ => job == Err::<NewJob, ErrorMessage>(ErrorMessage::NotFound),
        },
{
    match (experiment, runner) {
        (Some(e), Some(r)) => {
            let busy = match latest {
                Some(current) => current.status.is_active(),
                None => false,
            };
            if busy {
                Err(ErrorMessage::InvalidOperationForStatus)
            } else {
                Ok(NewJob { experiment_id: e.id, runner_id: r.id, code: e.code.clone() })
            }
        },
        _ => Err(ErrorMessage::NotFound),
    }
}

/// Routes `job` to its runner. Only a job that is still `Pending` can be
/// dispatched; any other is refused and stays as it is. Where the runner
/// has no live session the job becomes `Failed` and the answer is
/// `RunnerUnavailable`. Else the job stays `Pending` and the result says
/// which session is to send which order; the caller reports to `delivered`
/// whether the session took it.
pub fn dispatch(server: &ExperimentServer, job: &mut Job) -> (delivery: Result<
    Delivery,
    ErrorMessage,
>)
    ensures
        final(job).id == old(job).id,
        final(job).experiment_id == old(job).experiment_id,
        final(job).runner_id == old(job).runner_id,
        final(job).code == old(job).code,
        old(job).status != JobStatus::Pending ==> delivery == Err::<Delivery, ErrorMessage>(
            ErrorMessage::InvalidOperationForStatus,
        ) && final(job).status == old(job).status,
        old(job).status == JobStatus::Pending && !server@.contains_key(old(job).runner_id)
            ==> delivery == Err::<Delivery, ErrorMessage>(ErrorMessage::RunnerUnavailable)
            && final(job).status == JobStatus::Failed,
        old(job).status == JobStatus::Pending && server@.contains_key(old(job).runner_id) ==> (
        delivery matches Ok(d) && d.handle == server@[old(job).runner_id] && d.message.job_id
            == old(job).id && d.message.code@ == old(job).code@) && final(job).status
            == JobStatus::Pending,
{
    if job.status != JobStatus::Pending {
        return Err(ErrorMessage::InvalidOperationForStatus);
    }
    match server.dispatch(job.id, job.runner_id, job.code.as_str()) {
        Ok(delivery) => Ok(delivery),
        Err(unavailable) => {
            job.status = JobStatus::Failed;
            Err(unavailable)
        },
    }
}

/// Takes in whether the session took the order for `job`. A job whose order
/// was taken is `Running`. One whose order was not taken is `Failed`, and
/// the answer is `RunnerUnavailable`; it is not sent again. A job that is
/// not `Pending` is refused and stays as it is.
pub fn delivered(job: &mut Job, accepted: bool) -> (outcome: Result<(), ErrorMessage>)
    ensures
        final(job).id == old(job).id,
        final(job).experiment_id == old(job).experiment_id,
        final(job).runner_id == old(job).runner_id,
        final(job).code == old(job).code,
        old(job).status != JobStatus::Pending ==> outcome == Err::<(), ErrorMessage>(
            ErrorMessage::InvalidOperationForStatus,
        ) && final(job).status == old(job).status,
        old(job).status == JobStatus::Pending && accepted ==> outcome == Ok::<(), ErrorMessage>(())
            && final(job).status == JobStatus::Running,
        old(job).status == JobStatus::Pending && !accepted ==> outcome == Err::<(), ErrorMessage>(
            ErrorMessage::RunnerUnavailable,
        ) && final(job).status == JobStatus::Failed,
{
    let event = if accepted {
        JobEvent::Sent
    } else {
        JobEvent::Unreachable
    };
    match job.record(event) {
        Ok(()) => {
            if accepted {
                Ok(())
            } else {
                Err(ErrorMessage::RunnerUnavailable)
            }
        },
        Err(refusal) => Err(refusal),
    }
}

/// Takes a runner's report into `job`. A `Running` job becomes `Completed`
/// or `Failed` as the report says. A report for another job, or for a job
/// that is not `Running`, is refused and changes nothing.
pub fn reported(job: &mut Job, result: RunResult) -> (outcome: Result<(), ErrorMessage>)
    ensures
        final(job).id == old(job).id,
        final(job).experiment_id == old(job).experiment_id,
        final(job).runner_id == old(job).runner_id,
        final(job).code == old(job).code,
        result.job_id != old(job).id ==> outcome == Err::<(), ErrorMessage>(
            ErrorMessage::NotFound,
        ) && final(job).status == old(job).status,
        result.job_id == old(job).id && old(job).status != JobStatus::Running ==> outcome == Err::<
            (),
            ErrorMessage,
        >(ErrorMessage::InvalidOperationForStatus) && final(job).status == old(job).status,
        result.job_id == old(job).id && old(job).status == JobStatus::Running ==> outcome == Ok::<
            (),
            ErrorMessage,
        >(()) && final(job).status == (if result.successful {
            JobStatus::Completed
        } else {
            JobStatus::Failed
        }),
{
    if result.job_id != job.id {
        return Err(ErrorMessage::NotFound);
    }
    job.record(JobEvent::Reported { successful: result.successful })
}

} // verus!
