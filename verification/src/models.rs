//! The records that the dispatch core reads and writes.
//!
//! Storage belongs to the caller. These are the plain values that it hands
//! in and takes back.

use vstd::prelude::*;
use vstd::string::*;
use crate::errors::ErrorMessage;
use crate::protocol::RunExperiment;
use crate::status::{step, JobEvent, JobStatus};

verus! {

/// A remote worker, known by its number and by the access key it was issued.
#[derive(Clone, Debug, PartialEq, Eq)]
pub struct Runner {
    pub id: i64,
    pub access_key: String,
}

/// A named program that belongs to a user. Its status is that of its latest job.
#[derive(Clone, Debug, PartialEq, Eq)]
pub struct Experiment {
    pub id: i64,
    pub user_id: i64,
    pub name: String,
    pub code: String,
}

/// One dispatch of an experiment's code to one runner.
#[derive(Clone, Debug, PartialEq, Eq)]
pub struct Job {
    pub id: i64,
    pub experiment_id: i64,
    pub runner_id: i64,
    /// The experiment's code as it was when the job was created.
    pub code: String,
    pub status: JobStatus,
}

impl Job {
    /// The job `id` that runs `experiment` on the runner `runner_id`. It
    /// starts as `Pending` and keeps its own copy of the code, so that later
    /// edits of the experiment do not reach it.
    pub fn create(id: i64, experiment: &Experiment, runner_id: i64) -> (job: Job)
        ensures
            job.id == id,
            job.experiment_id == experiment.id,
            job.runner_id == runner_id,
            job.code@ == experiment.code@,
            job.status == JobStatus::Pending,
    {
        Job {
            id,
            experiment_id: experiment.id,
            runner_id,
            code: experiment.code.clone(),
            status: JobStatus::Pending,
        }
    }

    /// Takes `event` into the job's status. An event that has no place in the
    /// current status is refused and leaves the job as it was.
    pub fn record(&mut self, event: JobEvent) -> (outcome: Result<(), ErrorMessage>)
        ensures
            final(self).id == old(self).id,
            final(self).experiment_id == old(self).experiment_id,
            final(self).runner_id == old(self).runner_id,
            final(self).code == old(self).code,
            match step(old(self).status, event) {
                Some(next) => outcome == Ok::<(), ErrorMessage>(()) && final(self).status == next,
                None => outcome == Err::<(), ErrorMessage>(
                    ErrorMessage::InvalidOperationForStatus,
                ) && final(self).status == old(self).status,
            },
    {
        match self.status.apply(event) {
            Ok(next) => {
                self.status = next;
                Ok(())
            },
            Err(refusal) => Err(refusal),
        }
    }

    /// The order that asks the job's runner to run it.
    pub fn order(&self) -> (message: RunExperiment)
        ensures
            message.job_id == self.id,
            message.code@ == self.code@,
    {
        RunExperiment { job_id: self.id, code: self.code.clone() }
    }
}

} // verus!
