//! The errors that an operation on a connection can end in.

use vstd::prelude::*;
use vstd::string::StringExecFns;

verus! {

/// `std::io::Error`, carried through without a look inside.
#[verifier::external_type_specification]
#[verifier::external_body]
pub struct ExIoError(std::io::Error);

/// `std::str::Utf8Error`, carried through without a look inside.
#[verifier::external_type_specification]
#[verifier::external_body]
pub struct ExUtf8Error(std::str::Utf8Error);

/// What went wrong in an operation on a connection. Each operation ends in
/// success or in exactly one of these.
#[derive(Debug)]
pub enum PalconError {
    /// The transport failed: on connect, on a write or on a read.
    IoError(std::io::Error),
    /// Bytes that had to be text were not valid UTF-8.
    Utf8Error(std::str::Utf8Error),
    /// No reply came within the time allowed for a read.
    TimeoutError,
    /// The peer closed the connection.
    ConnectionEnded,
    /// The bytes received are too few to hold a reply.
    FailedToReadResponse,
    /// The server answered the handshake without the success marker.
    AuthenticationError,
    /// The connection is authenticated already.
    AlreadyAuthenticated,
}

impl PalconError {
    /// How the description of the error starts. The two kinds that wrap an
    /// error of the standard library go on with that error's own words; for
    /// every other kind this is the whole description.
    pub open spec fn message_prefix(&self) -> Seq<char> {
        match self {
            PalconError::IoError(_) => "IO error: "@,
            PalconError::Utf8Error(_) => "UTF8 error: "@,
            PalconError::TimeoutError => "Read timed out"@,
            PalconError::ConnectionEnded => "Ended connection"@,
            PalconError::FailedToReadResponse => "Failed to read response"@,
            PalconError::AuthenticationError => "Failed to authenticate"@,
            PalconError::AlreadyAuthenticated => "Already authenticated"@,
        }
    }

    /// Whether the error wraps one of the standard library, which is then
    /// its cause.
    pub open spec fn has_source(&self) -> bool {
        self is IoError || self is Utf8Error
    }

    /// A description of the error for a person to read.
    pub fn message(&self) -> (text: String)
        ensures
            self.message_prefix().is_prefix_of(text@),
            !self.has_source() ==> text@ == self.message_prefix(),
    {
        match self {
            PalconError::IoError(err) => String::from_str("IO error: ").concat(
                err.to_string().as_str(),
            ),
            PalconError::Utf8Error(err) => String::from_str("UTF8 error: ").concat(
                err.to_string().as_str(),
            ),
            PalconError::TimeoutError => String::from_str("Read timed out"),
            PalconError::ConnectionEnded => String::from_str("Ended connection"),
            PalconError::FailedToReadResponse => String::from_str("Failed to read response"),
            PalconError::AuthenticationError => String::from_str("Failed to authenticate"),
            PalconError::AlreadyAuthenticated => String::from_str("Already authenticated"),
        }
    }

    /// The transport error that this error wraps, if it wraps one.
    pub fn io_source(&self) -> (source: Option<&std::io::Error>)
        ensures
            match *self {
                PalconError::IoError(err) => source == Some(&err),
                _ => source is None,
            },
    {
        match self {
            PalconError::IoError(err) => Some(err),
            _ => None,
        }
    }

    /// The text error that this error wraps, if it wraps one.
    pub fn utf8_source(&self) -> (source: Option<&std::str::Utf8Error>)
        ensures
            match *self {
                PalconError::Utf8Error(err) => source == Some(&err),
                _ => source is None,
            },
    {
        match self {
            PalconError::Utf8Error(err) => Some(err),
            _ => None,
        }
    }
}

impl From<std::io::Error> for PalconError {
    fn from(err: std::io::Error) -> (error: PalconError) {
        PalconError::IoError(err)
    }
}

impl vstd::std_specs::convert::FromSpecImpl<std::io::Error> for PalconError {
    open spec fn obeys_from_spec() -> bool {
        true
    }

    open spec fn from_spec(err: std::io::Error) -> PalconError {
        PalconError::IoError(err)
    }
}

impl From<std::str::Utf8Error> for PalconError {
    fn from(err: std::str::Utf8Error) -> (error: PalconError) {
        PalconError::Utf8Error(err)
    }
}

impl vstd::std_specs::convert::FromSpecImpl<std::str::Utf8Error> for PalconError {
    open spec fn obeys_from_spec() -> bool {
        true
    }

    open spec fn from_spec(err: std::str::Utf8Error) -> PalconError {
        PalconError::Utf8Error(err)
    }
}

} // verus!
