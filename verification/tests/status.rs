use testbed::errors::ErrorMessage;
use testbed::status::{JobEvent, JobStatus};

#[test]
fn a_new_job_is_pending() {
    assert_eq!(JobStatus::initial(), JobStatus::Pending);
}

#[test]
fn a_sent_job_is_running() {
    assert_eq!(JobStatus::Pending.apply(JobEvent::Sent), Ok(JobStatus::Running));
}

#[test]
fn an_unreachable_runner_fails_the_job_without_running_it() {
    assert_eq!(JobStatus::Pending.apply(JobEvent::Unreachable), Ok(JobStatus::Failed));
}

#[test]
fn a_report_ends_a_running_job() {
    assert_eq!(
        JobStatus::Running.apply(JobEvent::Reported { successful: true }),
        Ok(JobStatus::Completed)
    );
    assert_eq!(
        JobStatus::Running.apply(JobEvent::Reported { successful: false }),
        Ok(JobStatus::Failed)
    );
}

#[test]
fn a_report_for_a_pending_job_is_refused() {
    assert_eq!(
        JobStatus::Pending.apply(JobEvent::Reported { successful: true }),
        Err(ErrorMessage::InvalidOperationForStatus)
    );
}

#[test]
fn a_running_job_is_not_sent_again() {
    assert_eq!(
        JobStatus::Running.apply(JobEvent::Sent),
        Err(ErrorMessage::InvalidOperationForStatus)
    );
    assert_eq!(
        JobStatus::Running.apply(JobEvent::Unreachable),
        Err(ErrorMessage::InvalidOperationForStatus)
    );
}

#[test]
fn nothing_follows_the_end_of_a_job() {
    let events = [
        JobEvent::Sent,
        JobEvent::Unreachable,
        JobEvent::Reported { successful: true },
        JobEvent::Reported { successful: false },
    ];
    for status in [JobStatus::Completed, JobStatus::Failed] {
        for event in events {
            assert_eq!(status.apply(event), Err(ErrorMessage::InvalidOperationForStatus));
        }
    }
}

#[test]
fn terminal_and_active_statuses() {
    assert!(!JobStatus::Pending.is_terminal());
    assert!(!JobStatus::Running.is_terminal());
    assert!(JobStatus::Completed.is_terminal());
    assert!(JobStatus::Failed.is_terminal());
    assert!(JobStatus::Pending.is_active());
    assert!(JobStatus::Running.is_active());
    assert!(!JobStatus::Completed.is_active());
    assert!(!JobStatus::Failed.is_active());
}

#[test]
fn rerun_is_refused_while_a_job_is_on_its_way() {
    assert_eq!(JobStatus::Pending.check_rerun(), Err(ErrorMessage::InvalidOperationForStatus));
    assert_eq!(JobStatus::Running.check_rerun(), Err(ErrorMessage::InvalidOperationForStatus));
    assert_eq!(JobStatus::Completed.check_rerun(), Ok(()));
    assert_eq!(JobStatus::Failed.check_rerun(), Ok(()));
}

#[test]
fn a_report_gives_the_final_status() {
    assert_eq!(JobStatus::from_report(true), JobStatus::Completed);
    assert_eq!(JobStatus::from_report(false), JobStatus::Failed);
}

#[test]
fn statuses_are_stored_by_name() {
    assert_eq!(JobStatus::Pending.value(), "pending");
    assert_eq!(JobStatus::Running.value(), "running");
    assert_eq!(JobStatus::Completed.value(), "completed");
    assert_eq!(JobStatus::Failed.value(), "failed");
}

#[test]
fn a_stored_status_is_read_back_as_itself() {
    for status in [
        JobStatus::Pending,
        JobStatus::Running,
        JobStatus::Completed,
        JobStatus::Failed,
    ] {
        assert_eq!(JobStatus::from_value(status.value()), Some(status));
    }
}

#[test]
fn an_unknown_name_is_no_status() {
    assert_eq!(JobStatus::from_value(""), None);
    assert_eq!(JobStatus::from_value("Pending"), None);
    assert_eq!(JobStatus::from_value("done"), None);
    assert_eq!(JobStatus::from_value("failed "), None);
}

#[test]
fn error_names() {
    assert_eq!(ErrorMessage::InvalidToken.name(), "InvalidToken");
    assert_eq!(ErrorMessage::WebSocketConnectionError.name(), "WebSocketConnectionError");
    assert_eq!(ErrorMessage::RunnerUnavailable.name(), "RunnerUnavailable");
    assert_eq!(ErrorMessage::InvalidOperationForStatus.name(), "InvalidOperationForStatus");
    assert_eq!(ErrorMessage::NotFound.name(), "NotFound");
}
