//! The decisions of a connection, without its socket.
//!
//! Every operation is one write followed by one bounded read. This module
//! builds the bytes to write and judges what the read produced; the owner of
//! the socket does the writing and the reading in between. An operation thus
//! comes as a pair: `begin_..` gives the bytes to send, or refuses, and
//! `finish_..` takes the outcome of the read and gives the operation's result.

use crate::codec::{
    decode_response, decoded, encode_packet, fits_packet, packet_bytes, Response, ResponseFields,
    AUTH_SUCCESS_TYPE, AUTH_TYPE, COMMAND_TYPE, PING_TYPE,
};
use crate::error::PalconError;
use vstd::prelude::*;
use vstd::string::StringSliceAdditionalSpecFns;

verus! {

/// The size of the buffer that one read fills. A longer reply is cut off
/// there: replies are not put together from several reads.
pub const RECEIVE_BUFFER_SIZE: usize = 4096;

/// The seconds that a read may take before it counts as timed out.
pub const READ_TIMEOUT_SECS: u64 = 5;

/// Whether the handshake has succeeded on a connection.
#[derive(Debug, Clone, Copy, PartialEq, Eq, Structural)]
pub enum ConnectionState {
    /// Connected, and not authenticated yet.
    Connected,
    /// Authenticated, for as long as the connection lives.
    Authenticated,
}

/// What one bounded read on the socket ended in.
#[derive(Debug)]
pub enum ReadOutcome {
    /// The read completed with these bytes: none at all where the peer has
    /// closed the connection.
    Received(Vec<u8>),
    /// The read failed.
    Failed(std::io::Error),
    /// The time allowed ran out first.
    TimedOut,
}

/// The protocol state of one connection.
#[derive(Debug)]
pub struct Session {
    state: ConnectionState,
}

impl View for Session {
    type V = ConnectionState;

    closed spec fn view(&self) -> ConnectionState {
        self.state
    }
}

/// The reply that a read gives, or the error that it ends in.
pub open spec fn read_result(outcome: ReadOutcome) -> Result<ResponseFields, PalconError> {
    match outcome {
        ReadOutcome::Received(bytes) => match decoded(bytes@) {
            Some(fields) => Ok(fields),
            None => Err(PalconError::FailedToReadResponse),
        },
        ReadOutcome::Failed(err) => Err(PalconError::IoError(err)),
        ReadOutcome::TimedOut => Err(PalconError::TimeoutError),
    }
}

/// What there is to send for an authentication in a given state: the
/// request, or a refusal with nothing to send.
pub open spec fn authenticate_request(state: ConnectionState, password: Seq<u8>) -> Result<
    Seq<u8>,
    PalconError,
> {
    match state {
        ConnectionState::Authenticated => Err(PalconError::AlreadyAuthenticated),
        ConnectionState::Connected => Ok(packet_bytes(AUTH_TYPE, password)),
    }
}

/// How an authentication ends, given what the read after it gave: in success
/// exactly where a reply came that carries the success marker.
pub open spec fn authenticate_result(read: Result<ResponseFields, PalconError>) -> Result<
    (),
    PalconError,
> {
    match read {
        Ok(fields) => if fields.response_type == AUTH_SUCCESS_TYPE {
            Ok(())
        } else {
            Err(PalconError::AuthenticationError)
        },
        Err(err) => Err(err),
    }
}

/// The state after an authentication that ended in `result`.
pub open spec fn state_after_authenticate(
    state: ConnectionState,
    result: Result<(), PalconError>,
) -> ConnectionState {
    if result is Ok {
        ConnectionState::Authenticated
    } else {
        state
    }
}

/// How a keepalive ends, given what the read after it gave: a reply of any
/// shape is a success.
pub open spec fn ping_result(read: Result<ResponseFields, PalconError>) -> Result<
    (),
    PalconError,
> {
    match read {
        Ok(_) => Ok(()),
        Err(err) => Err(err),
    }
}

/// A connection authenticates at most once. After an authentication that
/// succeeded, every further one is refused as already authenticated, whatever
/// the password, and there is nothing to send for it.
pub proof fn lemma_authenticate_only_once(
    state: ConnectionState,
    outcome: ReadOutcome,
    password: Seq<u8>,
)
    requires
        authenticate_result(read_result(outcome)) is Ok,
    ensures
        authenticate_request(
            state_after_authenticate(state, authenticate_result(read_result(outcome))),
            password,
        ) == Err::<Seq<u8>, PalconError>(PalconError::AlreadyAuthenticated),
{
}

/// There is no way back: an authenticated connection stays so, however a
/// further authentication ends.
pub proof fn lemma_authenticated_is_final(result: Result<(), PalconError>)
    ensures
        state_after_authenticate(ConnectionState::Authenticated, result)
            == ConnectionState::Authenticated,
{
}

/// The state advances on success alone: a connection becomes authenticated
/// exactly where the read completed with enough bytes for a reply and that
/// reply carries the success marker. A failed read, a timeout, too few bytes
/// and any other type tag leave it as it was.
pub proof fn lemma_state_advances_on_marker_only(outcome: ReadOutcome)
    ensures
        state_after_authenticate(
            ConnectionState::Connected,
            authenticate_result(read_result(outcome)),
        ) == ConnectionState::Authenticated <==> (outcome matches ReadOutcome::Received(bytes)
            && decoded(bytes@) matches Some(fields) && fields.response_type == AUTH_SUCCESS_TYPE),
{
}

/// A read that gave no bytes, as after the peer has closed the connection,
/// ends every operation in `FailedToReadResponse`, not in a timeout.
pub proof fn lemma_empty_read_fails(bytes: Vec<u8>)
    requires
        bytes@.len() == 0,
    ensures
        read_result(ReadOutcome::Received(bytes)) == Err::<ResponseFields, PalconError>(
            PalconError::FailedToReadResponse,
        ),
        authenticate_result(read_result(ReadOutcome::Received(bytes))) == Err::<(), PalconError>(
            PalconError::FailedToReadResponse,
        ),
        ping_result(read_result(ReadOutcome::Received(bytes))) == Err::<(), PalconError>(
            PalconError::FailedToReadResponse,
        ),
{
}

/// A buffer for one read: `RECEIVE_BUFFER_SIZE` zero bytes.
pub fn receive_buffer() -> (buffer: Vec<u8>)
    ensures
        buffer@ == Seq::new(RECEIVE_BUFFER_SIZE as nat, |i: int| 0u8),
{
    vec![0u8; RECEIVE_BUFFER_SIZE]
}

/// Judges what a bounded read produced: bytes are decoded, a failure of the
/// transport is passed on, and a read that ran out of time is a timeout.
pub fn read_response(outcome: ReadOutcome) -> (result: Result<Response, PalconError>)
    ensures
        match read_result(outcome) {
            Ok(fields) => result is Ok && result->Ok_0@ == fields,
            Err(err) => result == Err::<Response, PalconError>(err),
        },
{
    match outcome {
        ReadOutcome::Received(bytes) => decode_response(bytes.as_slice()),
        ReadOutcome::Failed(err) => Err(PalconError::from(err)),
        ReadOutcome::TimedOut => Err(PalconError::TimeoutError),
    }
}

impl Session {
    /// The state of a connection that has just been opened.
    pub fn new() -> (session: Session)
        ensures
            session@ == ConnectionState::Connected,
    {
        Session { state: ConnectionState::Connected }
    }

    /// The state of the connection.
    pub fn state(&self) -> (state: ConnectionState)
        ensures
            state == self@,
    {
        self.state
    }

    /// Starts an authentication. On a connection that is authenticated
    /// already it is refused, and there is nothing to send; otherwise the
    /// result is the request to send, with the password as its payload.
    pub fn begin_authenticate(&self, password: &str) -> (request: Result<Vec<u8>, PalconError>)
        requires
            self@ == ConnectionState::Connected ==> fits_packet(password.spec_bytes().len()),
        ensures
            match authenticate_request(self@, password.spec_bytes()) {
                Ok(bytes) => request is Ok && request->Ok_0@ == bytes,
                Err(err) => request == Err::<Vec<u8>, PalconError>(err),
            },
    {
        if self.state == ConnectionState::Authenticated {
            return Err(PalconError::AlreadyAuthenticated);
        }
        Ok(encode_packet(AUTH_TYPE, password))
    }

    /// Ends an authentication with the outcome of the read that followed the
    /// request. The connection becomes authenticated where the reply carries
    /// the success marker, and stays as it was in every other case.
    pub fn finish_authenticate(&mut self, outcome: ReadOutcome) -> (result: Result<
        (),
        PalconError,
    >)
        ensures
            result == authenticate_result(read_result(outcome)),
            final(self)@ == state_after_authenticate(old(self)@, result),
    {
        match read_response(outcome) {
            Ok(response) => {
                if response.response_type() == AUTH_SUCCESS_TYPE {
                    self.state = ConnectionState::Authenticated;
                    Ok(())
                } else {
                    Err(PalconError::AuthenticationError)
                }
            },
            Err(err) => Err(err),
        }
    }

    /// Starts a command: the request to send, with the command as its
    /// payload. Nothing is asked of the state: a server that wants an
    /// authentication first says so in its reply.
    pub fn begin_run_command(&self, command: &str) -> (request: Vec<u8>)
        requires
            fits_packet(command.spec_bytes().len()),
        ensures
            request@ == packet_bytes(COMMAND_TYPE, command.spec_bytes()),
    {
        encode_packet(COMMAND_TYPE, command)
    }

    /// Ends a command with the outcome of the read that followed the request:
    /// the reply as it was decoded.
    pub fn finish_run_command(&self, outcome: ReadOutcome) -> (result: Result<
        Response,
        PalconError,
    >)
        ensures
            match read_result(outcome) {
                Ok(fields) => result is Ok && result->Ok_0@ == fields,
                Err(err) => result == Err::<Response, PalconError>(err),
            },
    {
        read_response(outcome)
    }

    /// Starts a keepalive: the request to send, with an empty payload.
    pub fn begin_ping(&self) -> (request: Vec<u8>)
        ensures
            request@ == packet_bytes(PING_TYPE, Seq::empty()),
    {
        proof {
            reveal_strlit("");
        }
        encode_packet(PING_TYPE, "")
    }

    /// Ends a keepalive with the outcome of the read that followed the
    /// request. A reply of any shape is a success, and is dropped.
    pub fn finish_ping(&self, outcome: ReadOutcome) -> (result: Result<(), PalconError>)
        ensures
            result == ping_result(read_result(outcome)),
    {
        match read_response(outcome) {
            Ok(_) => Ok(()),
            Err(err) => Err(err),
        }
    }
}

} // verus!
