use testbed::connection::{
    Connection, ConnectionState, Error, ExecutorOutcome, FrameAction, MAX_TIMING, TIMINGS,
};
use testbed::errors::SocketErrorKind;
use testbed::frame::{payload_text, Frame, TransportError};
use testbed::protocol::RunExperiment;

fn fresh() -> Connection {
    Connection::new("ws://coordinator/ws".to_string(), "616263415e4fd1bb652c9e".to_string())
}

fn connected() -> Connection {
    let mut connection = fresh();
    connection.started();
    assert_eq!(connection.connect_finished(Ok(())), None);
    connection
}

fn order_frame() -> Frame {
    Frame::Text(
        b"{\"kind\":\"RunExperiment\",\"data\":{\"job_id\":7,\"code\":\"print(1)\"}}".to_vec(),
    )
}

#[test]
fn a_new_connection_is_disconnected() {
    let connection = fresh();
    assert_eq!(connection.state(), ConnectionState::Disconnected);
    assert_eq!(connection.timing_index(), 0);
    assert!(!connection.has_executor());
}

#[test]
fn the_token_goes_into_the_address() {
    assert_eq!(fresh().connect(), "ws://coordinator/ws?token=616263415e4fd1bb652c9e");
}

#[test]
fn starting_begins_an_attempt() {
    let mut connection = fresh();
    assert_eq!(connection.started(), "ws://coordinator/ws?token=616263415e4fd1bb652c9e");
    assert_eq!(connection.state(), ConnectionState::Connecting);
}

#[test]
fn the_schedule_of_delays() {
    assert_eq!(MAX_TIMING, 5);
    assert_eq!(TIMINGS, [0, 2, 4, 6, 8]);
}

#[test]
fn delays_follow_the_schedule_and_stay_at_its_end() {
    let mut connection = fresh();
    let mut delays = Vec::new();
    for _ in 0..7 {
        connection.try_connect();
        assert_eq!(connection.state(), ConnectionState::Connecting);
        delays.push(connection.connect_finished(Err(Error::ServerNotReachable)));
        assert_eq!(connection.state(), ConnectionState::Disconnected);
    }
    assert_eq!(
        delays,
        vec![Some(2), Some(4), Some(6), Some(8), Some(8), Some(8), Some(8)]
    );
    assert_eq!(connection.timing_index(), 4);
}

#[test]
fn the_nth_delay_is_the_nth_entry_of_the_schedule() {
    for n in 1..12usize {
        let mut connection = fresh();
        let mut last = None;
        for _ in 0..n {
            last = connection.connect_finished(Err(Error::ServerNotReachable));
        }
        let place = if n < MAX_TIMING - 1 { n } else { MAX_TIMING - 1 };
        assert_eq!(last, Some(TIMINGS[place] as u64));
    }
}

#[test]
fn a_success_starts_the_schedule_over() {
    let mut connection = fresh();
    for _ in 0..3 {
        connection.connect_finished(Err(Error::ServerNotReachable));
    }
    assert_eq!(connection.timing_index(), 3);
    assert_eq!(connection.connect_finished(Ok(())), None);
    assert_eq!(connection.state(), ConnectionState::Connected);
    assert_eq!(connection.timing_index(), 0);
    connection.finished();
    assert_eq!(connection.connect_finished(Err(Error::ServerNotReachable)), Some(2));
}

#[test]
fn a_closed_socket_is_connected_again_at_once() {
    let mut connection = connected();
    assert_eq!(connection.finished(), "ws://coordinator/ws?token=616263415e4fd1bb652c9e");
    assert_eq!(connection.state(), ConnectionState::Connecting);
    assert_eq!(connection.timing_index(), 0);
}

#[test]
fn an_order_goes_to_the_executor() {
    let mut connection = connected();
    connection.update_executor(true);
    assert!(connection.has_executor());
    assert_eq!(
        connection.handle_frame(order_frame()),
        Ok(FrameAction::Execute(RunExperiment { job_id: 7, code: "print(1)".to_string() }))
    );
}

#[test]
fn an_order_that_nobody_can_run_is_reported_as_failed() {
    let connection = connected();
    assert_eq!(
        connection.handle_frame(order_frame()),
        Ok(FrameAction::Send(
            "{\"kind\":\"RunResult\",\"data\":{\"job_id\":7,\"successful\":false}}".to_string()
        ))
    );
}

#[test]
fn without_executor_and_socket_an_order_is_passed_over() {
    let connection = fresh();
    assert_eq!(connection.handle_frame(order_frame()), Ok(FrameAction::Ignore));
}

#[test]
fn an_executor_can_be_taken_away_again() {
    let mut connection = connected();
    connection.update_executor(true);
    connection.update_executor(false);
    assert!(!connection.has_executor());
    assert_eq!(connection.state(), ConnectionState::Connected);
}

#[test]
fn a_bogus_frame_is_an_invalid_message_and_the_connection_stays() {
    let mut connection = connected();
    connection.update_executor(true);
    let bogus = Frame::Text(b"{\"kind\":\"Bogus\",\"data\":{}}".to_vec());
    assert_eq!(connection.handle_frame(bogus.clone()), Err(SocketErrorKind::InvalidMessage));
    assert_eq!(connection.handle(Ok(bogus)), FrameAction::Ignore);
    assert_eq!(connection.state(), ConnectionState::Connected);
    assert_eq!(
        connection.handle(Ok(order_frame())),
        FrameAction::Execute(RunExperiment { job_id: 7, code: "print(1)".to_string() })
    );
}

#[test]
fn a_frame_that_is_no_text_is_an_invalid_message() {
    let connection = connected();
    assert_eq!(
        connection.handle_frame(Frame::Text(vec![0xff, 0xfe, 0x7b])),
        Err(SocketErrorKind::InvalidMessage)
    );
    assert_eq!(
        connection.handle_frame(Frame::Text(vec![0xc3])),
        Err(SocketErrorKind::InvalidMessage)
    );
}

#[test]
fn frames_without_a_message_are_passed_over() {
    let mut connection = connected();
    connection.update_executor(true);
    let order = b"{\"kind\":\"RunExperiment\",\"data\":{\"job_id\":7,\"code\":\"x\"}}".to_vec();
    for frame in [
        Frame::Ping(Vec::new()),
        Frame::Ping(order.clone()),
        Frame::Pong(vec![1, 2, 3]),
        Frame::Binary(order),
        Frame::Continuation,
        Frame::Close,
    ] {
        assert_eq!(connection.handle_frame(frame), Ok(FrameAction::Ignore));
    }
}

#[test]
fn a_failure_of_the_stream_is_passed_over() {
    let connection = connected();
    assert_eq!(connection.handle(Err(TransportError)), FrameAction::Ignore);
    assert_eq!(connection.state(), ConnectionState::Connected);
}

#[test]
fn a_finished_job_is_reported() {
    let connection = connected();
    assert_eq!(
        connection.job_finished(42, ExecutorOutcome::Finished { successful: true }),
        Some("{\"kind\":\"RunResult\",\"data\":{\"job_id\":42,\"successful\":true}}".to_string())
    );
    assert_eq!(
        connection.job_finished(42, ExecutorOutcome::Finished { successful: false }),
        Some("{\"kind\":\"RunResult\",\"data\":{\"job_id\":42,\"successful\":false}}".to_string())
    );
}

#[test]
fn a_failed_executor_still_has_the_job_reported() {
    let connection = connected();
    assert_eq!(
        connection.job_finished(42, ExecutorOutcome::Failed),
        Some("{\"kind\":\"RunResult\",\"data\":{\"job_id\":42,\"successful\":false}}".to_string())
    );
}

#[test]
fn nothing_is_reported_without_a_socket() {
    let mut connection = fresh();
    assert_eq!(connection.job_finished(42, ExecutorOutcome::Finished { successful: true }), None);
    connection.started();
    assert_eq!(connection.job_finished(42, ExecutorOutcome::Failed), None);
}

#[test]
fn the_text_of_a_payload() {
    assert_eq!(payload_text(b"print(1)".to_vec()), Some("print(1)".to_string()));
    assert_eq!(payload_text("gr\u{f6}\u{df}e".as_bytes().to_vec()), Some("größe".to_string()));
    assert_eq!(payload_text(Vec::new()), Some(String::new()));
    assert_eq!(payload_text(vec![0x80]), None);
    assert_eq!(payload_text(vec![0xed, 0xa0, 0x80]), None);
}
