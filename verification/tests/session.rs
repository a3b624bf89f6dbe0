use testbed::errors::SocketErrorKind;
use testbed::frame::Frame;
use testbed::protocol::{RunExperiment, RunResult};
use testbed::registry::{ExperimentServer, ServerMessage};
use testbed::session::Session;

#[test]
fn a_new_session_is_not_registered() {
    let session = Session::new(1, 10);
    assert_eq!(session.runner_id(), 1);
    assert_eq!(session.handle(), 10);
    assert!(!session.is_registered());
}

#[test]
fn a_session_that_opens_registers_itself() {
    let mut session = Session::new(1, 10);
    assert_eq!(session.started(), ServerMessage::Connect { runner_id: 1, handle: 10 });
    assert!(session.is_registered());
}

#[test]
fn a_session_signs_off_once() {
    let mut session = Session::new(1, 10);
    session.started();
    assert_eq!(session.stopped(), Some(ServerMessage::Disconnect { runner_id: 1, handle: 10 }));
    assert!(!session.is_registered());
    assert_eq!(session.stopped(), None);
    assert_eq!(session.stopped(), None);
}

#[test]
fn a_session_that_never_opened_has_nothing_to_sign_off() {
    let mut session = Session::new(1, 10);
    assert_eq!(session.stopped(), None);
}

#[test]
fn a_report_is_passed_on_to_the_registry() {
    let session = Session::new(1, 10);
    let frame = Frame::Text(
        b"{\"kind\":\"RunResult\",\"data\":{\"job_id\":42,\"successful\":true}}".to_vec(),
    );
    assert_eq!(
        session.handle_frame(frame),
        Ok(Some(ServerMessage::Result(RunResult { job_id: 42, successful: true })))
    );
}

#[test]
fn a_session_drops_what_is_no_report() {
    let session = Session::new(1, 10);
    assert_eq!(
        session.handle_frame(Frame::Text(b"{\"kind\":\"Bogus\",\"data\":{}}".to_vec())),
        Err(SocketErrorKind::InvalidMessage)
    );
    assert_eq!(
        session.handle_frame(Frame::Text(
            b"{\"kind\":\"RunExperiment\",\"data\":{\"job_id\":7,\"code\":\"x\"}}".to_vec()
        )),
        Err(SocketErrorKind::InvalidMessage)
    );
    assert_eq!(
        session.handle_frame(Frame::Text(vec![0xff])),
        Err(SocketErrorKind::InvalidMessage)
    );
}

#[test]
fn a_session_passes_over_frames_without_a_message() {
    let session = Session::new(1, 10);
    let report = b"{\"kind\":\"RunResult\",\"data\":{\"job_id\":42,\"successful\":true}}".to_vec();
    for frame in [
        Frame::Ping(report.clone()),
        Frame::Pong(Vec::new()),
        Frame::Binary(report),
        Frame::Continuation,
        Frame::Close,
    ] {
        assert_eq!(session.handle_frame(frame), Ok(None));
    }
}

#[test]
fn a_session_writes_orders() {
    let session = Session::new(1, 10);
    assert_eq!(
        session.send(&RunExperiment { job_id: 42, code: "print(1)".to_string() }),
        Ok("{\"kind\":\"RunExperiment\",\"data\":{\"job_id\":42,\"code\":\"print(1)\"}}".to_string())
    );
}

#[test]
fn a_session_that_closes_late_leaves_its_successor_registered() {
    let mut server = ExperimentServer::new();
    let mut old = Session::new(1, 10);
    let mut new = Session::new(1, 11);
    server.handle(old.started());
    server.handle(new.started());
    if let Some(message) = old.stopped() {
        server.handle(message);
    }
    assert_eq!(server.session_of(1), Some(11));
    assert_eq!(old.stopped(), None);
    assert_eq!(server.session_of(1), Some(11));
}
