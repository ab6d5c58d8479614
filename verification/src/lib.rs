//! A client for the length-prefixed remote-console protocol of a game server.
//!
//! The crate holds the protocol without the socket: the byte layout of a
//! request, the decoding of a reply, and the decisions that a connection takes
//! between one write and one bounded read. Whoever owns the socket writes the
//! bytes that this crate builds and hands back what the read produced.

pub mod buffer;
pub mod codec;
pub mod connection;
pub mod endian;
pub mod error;

pub use codec::{decode_response, encode_packet, Response};
pub use connection::{read_response, ConnectionState, ReadOutcome, Session};
pub use error::PalconError;
