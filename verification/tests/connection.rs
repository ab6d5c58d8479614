use palcon::connection::{
    read_response, receive_buffer, ConnectionState, ReadOutcome, Session, READ_TIMEOUT_SECS,
    RECEIVE_BUFFER_SIZE,
};
use palcon::{PalconError, Response};
use std::collections::VecDeque;
use std::io::{Error, ErrorKind};

/// What the server on the other side does with the next read.
enum Reply {
    Frame(Vec<u8>),
    Reset,
    Silence,
    Close,
}

/// A stand-in for the socket: it records what is written and answers each
/// read from a script.
struct MockTransport {
    written: Vec<Vec<u8>>,
    script: VecDeque<Reply>,
}

impl MockTransport {
    fn new(script: Vec<Reply>) -> MockTransport {
        MockTransport { written: Vec::new(), script: script.into() }
    }

    fn write(&mut self, bytes: &[u8]) {
        self.written.push(bytes.to_vec());
    }

    fn read(&mut self) -> ReadOutcome {
        let mut buffer = receive_buffer();
        match self.script.pop_front().unwrap_or(Reply::Silence) {
            Reply::Frame(bytes) => {
                let n = bytes.len().min(buffer.len());
                buffer[..n].copy_from_slice(&bytes[..n]);
                buffer.truncate(n);
                ReadOutcome::Received(buffer)
            }
            Reply::Reset => ReadOutcome::Failed(Error::new(ErrorKind::ConnectionReset, "reset")),
            Reply::Silence => ReadOutcome::TimedOut,
            Reply::Close => ReadOutcome::Received(Vec::new()),
        }
    }
}

fn frame(size: i32, tag: i32, payload: &[u8]) -> Vec<u8> {
    let mut bytes = Vec::new();
    bytes.extend_from_slice(&size.to_le_bytes());
    bytes.extend_from_slice(&0i32.to_le_bytes());
    bytes.extend_from_slice(&tag.to_le_bytes());
    bytes.extend_from_slice(payload);
    bytes.extend_from_slice(&[0, 0]);
    bytes
}

fn authenticate(
    session: &mut Session,
    transport: &mut MockTransport,
    password: &str,
) -> Result<(), PalconError> {
    let request = session.begin_authenticate(password)?;
    transport.write(&request);
    let outcome = transport.read();
    session.finish_authenticate(outcome)
}

fn run_command(
    session: &Session,
    transport: &mut MockTransport,
    command: &str,
) -> Result<Response, PalconError> {
    let request = session.begin_run_command(command);
    transport.write(&request);
    let outcome = transport.read();
    session.finish_run_command(outcome)
}

fn ping(session: &Session, transport: &mut MockTransport) -> Result<(), PalconError> {
    let request = session.begin_ping();
    transport.write(&request);
    let outcome = transport.read();
    session.finish_ping(outcome)
}

#[test]
fn limits_are_fixed() {
    assert_eq!(RECEIVE_BUFFER_SIZE, 4096);
    assert_eq!(READ_TIMEOUT_SECS, 5);
    assert_eq!(receive_buffer(), vec![0u8; 4096]);
}

#[test]
fn new_session_is_not_authenticated() {
    assert_eq!(Session::new().state(), ConnectionState::Connected);
}

#[test]
fn begin_authenticate_builds_the_request() {
    let session = Session::new();
    let request = session.begin_authenticate("secret").unwrap();
    assert_eq!(
        request,
        vec![6, 0, 0, 0, 0, 0, 0, 0, 3, 0, 0, 0, b's', b'e', b'c', b'r', b'e', b't', 0, 0]
    );
}

#[test]
fn begin_run_command_builds_the_request() {
    let session = Session::new();
    let request = session.begin_run_command("save");
    assert_eq!(request, vec![4, 0, 0, 0, 0, 0, 0, 0, 2, 0, 0, 0, b's', b'a', b'v', b'e', 0, 0]);
}

#[test]
fn begin_ping_builds_the_request() {
    let session = Session::new();
    let request = session.begin_ping();
    assert_eq!(request, vec![0, 0, 0, 0, 0, 0, 0, 0, 0xff, 0xff, 0xff, 0xff, 0, 0]);
}

#[test]
fn read_response_judges_each_outcome() {
    let response = read_response(ReadOutcome::Received(frame(9, 1, b"done"))).unwrap();
    assert_eq!(response.size(), 9);
    assert_eq!(response.response_type(), 1);
    assert_eq!(response.payload(), "done");
    let failed = read_response(ReadOutcome::Failed(Error::new(ErrorKind::ConnectionReset, "reset")));
    match failed {
        Err(PalconError::IoError(inner)) => assert_eq!(inner.kind(), ErrorKind::ConnectionReset),
        other => panic!("unexpected {:?}", other),
    }
    assert!(matches!(read_response(ReadOutcome::TimedOut), Err(PalconError::TimeoutError)));
    assert!(matches!(
        read_response(ReadOutcome::Received(Vec::new())),
        Err(PalconError::FailedToReadResponse)
    ));
    assert!(matches!(
        read_response(ReadOutcome::Received(vec![1, 0, 0, 0, 0, 0, 0, 0, 2, 0, 0])),
        Err(PalconError::FailedToReadResponse)
    ));
}

#[test]
fn authenticate_succeeds_on_the_marker() {
    let mut transport = MockTransport::new(vec![Reply::Frame(frame(0, 2, b""))]);
    let mut session = Session::new();
    let result = authenticate(&mut session, &mut transport, "x");
    assert!(result.is_ok());
    assert_eq!(session.state(), ConnectionState::Authenticated);
    assert_eq!(transport.written, vec![vec![1, 0, 0, 0, 0, 0, 0, 0, 3, 0, 0, 0, b'x', 0, 0]]);
}

#[test]
fn authenticate_fails_on_any_other_tag() {
    let tags = [0, 1, 3, -1, i32::MAX, i32::MIN];
    for tag in tags {
        let mut transport = MockTransport::new(vec![Reply::Frame(frame(0, tag, b"no"))]);
        let mut session = Session::new();
        let result = authenticate(&mut session, &mut transport, "x");
        assert!(matches!(result, Err(PalconError::AuthenticationError)));
        assert_eq!(session.state(), ConnectionState::Connected);
    }
}

#[test]
fn authenticate_twice_is_refused_without_traffic() {
    let mut transport =
        MockTransport::new(vec![Reply::Frame(frame(0, 2, b"")), Reply::Frame(frame(0, 2, b""))]);
    let mut session = Session::new();
    assert!(authenticate(&mut session, &mut transport, "x").is_ok());
    assert_eq!(transport.written.len(), 1);
    let second = authenticate(&mut session, &mut transport, "x");
    assert!(matches!(second, Err(PalconError::AlreadyAuthenticated)));
    assert_eq!(transport.written.len(), 1);
    assert_eq!(transport.script.len(), 1);
    assert_eq!(session.state(), ConnectionState::Authenticated);
}

#[test]
fn authenticate_again_after_a_failure_goes_to_the_server() {
    let mut transport =
        MockTransport::new(vec![Reply::Frame(frame(0, 0, b"")), Reply::Frame(frame(0, 2, b""))]);
    let mut session = Session::new();
    let first = authenticate(&mut session, &mut transport, "wrong");
    assert!(matches!(first, Err(PalconError::AuthenticationError)));
    let second = authenticate(&mut session, &mut transport, "right");
    assert!(second.is_ok());
    assert_eq!(transport.written.len(), 2);
    assert_eq!(session.state(), ConnectionState::Authenticated);
}

#[test]
fn authenticated_state_survives_a_later_failure() {
    let mut session = Session::new();
    assert!(session.finish_authenticate(ReadOutcome::Received(frame(0, 2, b""))).is_ok());
    assert!(session.finish_authenticate(ReadOutcome::TimedOut).is_err());
    assert_eq!(session.state(), ConnectionState::Authenticated);
    assert!(session.finish_authenticate(ReadOutcome::Received(frame(0, 0, b""))).is_err());
    assert_eq!(session.state(), ConnectionState::Authenticated);
}

#[test]
fn authenticate_passes_on_what_the_read_ended_in() {
    let mut session = Session::new();
    let mut transport = MockTransport::new(vec![Reply::Silence, Reply::Reset, Reply::Close]);
    let result = authenticate(&mut session, &mut transport, "x");
    assert!(matches!(result, Err(PalconError::TimeoutError)));
    let result = authenticate(&mut session, &mut transport, "x");
    assert!(matches!(result, Err(PalconError::IoError(_))));
    let result = authenticate(&mut session, &mut transport, "x");
    assert!(matches!(result, Err(PalconError::FailedToReadResponse)));
    assert_eq!(session.state(), ConnectionState::Connected);
}

#[test]
fn quick_test() {
    let mut transport = MockTransport::new(vec![
        Reply::Frame(frame(0, 2, b"")),
        Reply::Frame(frame(30, 0, b"Broadcasted: Hello!\n")),
    ]);
    let mut session = Session::new();
    let response = authenticate(&mut session, &mut transport, "password");
    assert!(response.is_ok());
    let response = run_command(&session, &mut transport, "broadcast Hello!").unwrap();
    assert_eq!(response.payload(), "Broadcasted: Hello!\n");
    assert_eq!(response.response_type(), 0);
    assert_eq!(response.size(), 30);
    let mut expected = vec![16, 0, 0, 0, 0, 0, 0, 0, 2, 0, 0, 0];
    expected.extend_from_slice(b"broadcast Hello!");
    expected.extend_from_slice(&[0, 0]);
    assert_eq!(transport.written[1], expected);
}

#[test]
fn test_ping() {
    let mut transport =
        MockTransport::new(vec![Reply::Frame(frame(0, 2, b"")), Reply::Frame(frame(0, 0, b""))]);
    let mut session = Session::new();
    let response = authenticate(&mut session, &mut transport, "password");
    assert!(response.is_ok());
    let response = ping(&session, &mut transport).unwrap();
    assert_eq!(response, ());
    assert_eq!(transport.written[1], vec![0, 0, 0, 0, 0, 0, 0, 0, 0xff, 0xff, 0xff, 0xff, 0, 0]);
}

#[test]
fn test_with_sleep() {
    let delay: u64 = 5;
    let mut script = vec![Reply::Frame(frame(0, 2, b""))];
    for _ in 0..delay {
        script.push(Reply::Frame(frame(0, 0, b"")));
    }
    script.push(Reply::Frame(frame(30, 0, b"Broadcasted: test_with_sleep!\n")));
    let mut transport = MockTransport::new(script);
    let mut session = Session::new();
    let response = authenticate(&mut session, &mut transport, "password");
    assert!(response.is_ok());
    for _ in 0..delay {
        let response = ping(&session, &mut transport).unwrap();
        assert_eq!(response, ());
    }
    let response = run_command(&session, &mut transport, "broadcast test_with_sleep!").unwrap();
    assert_eq!(response.payload(), "Broadcasted: test_with_sleep!\n");
    assert_eq!(response.response_type(), 0);
    assert_eq!(response.size(), 30);
}

#[test]
fn test_sleep_no_ping() {
    let delays: [u64; 2] = [5, 30];
    for delay in delays {
        // The server drops a connection that was idle for thirty seconds.
        let after_idle = if delay >= 30 {
            Reply::Close
        } else {
            Reply::Frame(frame(30, 0, b"Broadcasted: test_sleep_no_ping!\n"))
        };
        let mut transport = MockTransport::new(vec![Reply::Frame(frame(0, 2, b"")), after_idle]);
        let mut session = Session::new();
        let response = authenticate(&mut session, &mut transport, "password");
        assert!(response.is_ok());
        let response = run_command(&session, &mut transport, "broadcast test_sleep_no_ping!");
        if delay >= 30 {
            assert!(response.is_err());
        } else {
            assert!(response.is_ok());
        }
    }
}

#[test]
fn run_command_before_authentication_returns_what_the_server_says() {
    let mut transport = MockTransport::new(vec![Reply::Frame(frame(12, 5, b"not allowed"))]);
    let session = Session::new();
    let response = run_command(&session, &mut transport, "save").unwrap();
    assert_eq!(response.payload(), "not allowed");
    assert_eq!(response.response_type(), 5);
    assert_eq!(response.size(), 12);
}

#[test]
fn silent_server_times_out() {
    let mut transport = MockTransport::new(vec![Reply::Silence, Reply::Silence]);
    let session = Session::new();
    let result = run_command(&session, &mut transport, "save");
    assert!(matches!(result, Err(PalconError::TimeoutError)));
    let result = ping(&session, &mut transport);
    assert!(matches!(result, Err(PalconError::TimeoutError)));
    assert_eq!(transport.written.len(), 2);
}

#[test]
fn closed_connection_fails_to_read_not_times_out() {
    let mut transport = MockTransport::new(vec![Reply::Close, Reply::Close, Reply::Close]);
    let mut session = Session::new();
    let result = run_command(&session, &mut transport, "save");
    assert!(matches!(result, Err(PalconError::FailedToReadResponse)));
    let result = ping(&session, &mut transport);
    assert!(matches!(result, Err(PalconError::FailedToReadResponse)));
    let result = authenticate(&mut session, &mut transport, "x");
    assert!(matches!(result, Err(PalconError::FailedToReadResponse)));
}

#[test]
fn reset_connection_passes_the_transport_error_on() {
    let mut transport = MockTransport::new(vec![Reply::Reset, Reply::Reset]);
    let session = Session::new();
    match run_command(&session, &mut transport, "save") {
        Err(PalconError::IoError(inner)) => assert_eq!(inner.kind(), ErrorKind::ConnectionReset),
        other => panic!("unexpected {:?}", other),
    }
    match ping(&session, &mut transport) {
        Err(PalconError::IoError(inner)) => assert_eq!(inner.kind(), ErrorKind::ConnectionReset),
        other => panic!("unexpected {:?}", other),
    }
}

#[test]
fn ping_accepts_a_reply_of_any_shape() {
    let session = Session::new();
    assert!(session.finish_ping(ReadOutcome::Received(frame(0, 0, b""))).is_ok());
    assert!(session.finish_ping(ReadOutcome::Received(frame(-7, 99, &[0xff, 0xfe]))).is_ok());
    assert!(session.finish_ping(ReadOutcome::Received(vec![0u8; 12])).is_ok());
    assert!(matches!(
        session.finish_ping(ReadOutcome::Received(vec![0u8; 11])),
        Err(PalconError::FailedToReadResponse)
    ));
}

#[test]
fn long_reply_is_cut_at_the_buffer() {
    let long = vec![b'a'; 5000];
    let mut transport = MockTransport::new(vec![Reply::Frame(frame(5000, 0, &long))]);
    let session = Session::new();
    let response = run_command(&session, &mut transport, "list").unwrap();
    assert_eq!(response.size(), 5000);
    assert_eq!(response.payload().len(), 4096 - 12);
}
