//! The wire codec: how a request is laid out in bytes, and how the bytes of a
//! reply are read. All integers on the wire are signed, 32 bits wide and
//! little-endian.
//!
//! | offset | field       | size | request                        | reply            |
//! |--------|-------------|------|--------------------------------|------------------|
//! | 0      | length      | 4    | byte length of the payload     | as the server says |
//! | 4      | sequence id | 4    | always 0                       | ignored          |
//! | 8      | type tag    | 4    | what is asked                  | as the server says |
//! | 12     | payload     | n    | UTF-8 text                     | text up to the first zero byte |
//! | 12 + n | terminator  | 2    | two zero bytes                 | none assumed     |

use crate::buffer::{
    buffer_into_vec, buffer_with_capacity, get_i32_le, put_i16_le, put_i32_le, put_slice,
};
use crate::endian::{
    i16_le_bytes, i32_from_le_bytes, i32_le_bytes, lemma_i32_le_round_trip, lemma_le_bytes_of_zero,
};
use crate::error::PalconError;
use vstd::prelude::*;
use vstd::string::StringSliceAdditionalSpecFns;
use vstd::utf8::{
    char_is_scalar, decode_utf8, encode_scalar, encode_utf8, encode_utf8_decode_utf8,
    encode_utf8_valid_utf8, is_scalar, valid_utf8,
};

verus! {

/// The type tag of a request that authenticates.
pub const AUTH_TYPE: i32 = 3;

/// The type tag of a request that runs a command.
pub const COMMAND_TYPE: i32 = 2;

/// The type tag of a request that only keeps the connection alive.
pub const PING_TYPE: i32 = -1;

/// The type tag by which a reply accepts an authentication.
pub const AUTH_SUCCESS_TYPE: i32 = 2;

/// The bytes before the payload: length, sequence id and type tag.
pub const HEADER_LEN: usize = 12;

/// The bytes of a request besides its payload: the header and the terminator.
pub const PACKET_OVERHEAD: usize = 14;

/// A reply of the server.
#[derive(Debug)]
pub struct Response {
    size: i32,
    payload: String,
    response_type: i32,
}

/// What a reply holds.
pub ghost struct ResponseFields {
    /// The size that the server declared. Nothing holds it to the bytes received.
    pub size: i32,
    /// The text of the reply.
    pub payload: Seq<char>,
    /// The type tag of the reply.
    pub response_type: i32,
}

impl View for Response {
    type V = ResponseFields;

    closed spec fn view(&self) -> ResponseFields {
        ResponseFields {
            size: self.size,
            payload: self.payload@,
            response_type: self.response_type,
        }
    }
}

impl Response {
    /// The text of the reply.
    pub fn payload(&self) -> (payload: &str)
        ensures
            payload@ == self@.payload,
    {
        self.payload.as_str()
    }

    /// The type tag of the reply. It means nothing fixed outside the handshake.
    pub fn response_type(&self) -> (response_type: i32)
        ensures
            response_type == self@.response_type,
    {
        self.response_type
    }

    /// The size that the server declared, which need not be the length of
    /// anything received.
    pub fn size(&self) -> (size: i32)
        ensures
            size == self@.size,
    {
        self.size
    }
}

/// The bytes of a request with the given type tag and payload.
pub open spec fn packet_bytes(packet_type: i32, payload: Seq<u8>) -> Seq<u8> {
    i32_le_bytes(payload.len() as i32) + i32_le_bytes(0) + i32_le_bytes(packet_type) + payload
        + i16_le_bytes(0)
}

/// Whether a payload of this many bytes leaves room for the rest of a packet
/// within the largest allocation there can be.
pub open spec fn fits_packet(payload_len: nat) -> bool {
    payload_len + PACKET_OVERHEAD <= isize::MAX
}

/// `end` is where the payload stops in the bytes after the header: at the
/// first zero byte, or at the end where there is none.
pub open spec fn is_payload_end(bytes: Seq<u8>, end: int) -> bool {
    &&& 0 <= end <= bytes.len()
    &&& forall|i: int| 0 <= i < end ==> bytes[i] != 0
    &&& end < bytes.len() ==> bytes[end] == 0
}

/// Where the payload stops in the bytes after the header.
pub open spec fn payload_end(bytes: Seq<u8>) -> int {
    choose|end: int| is_payload_end(bytes, end)
}

/// The text that payload bytes stand for: what they decode to as UTF-8, and
/// the empty text where they are not valid UTF-8.
pub open spec fn payload_text(bytes: Seq<u8>) -> Seq<char> {
    if valid_utf8(bytes) {
        decode_utf8(bytes)
    } else {
        Seq::empty()
    }
}

/// The reply that received bytes hold, if they are enough for a header.
pub open spec fn decoded(bytes: Seq<u8>) -> Option<ResponseFields> {
    if bytes.len() < HEADER_LEN {
        None
    } else {
        let rest = bytes.skip(HEADER_LEN as int);
        Some(
            ResponseFields {
                size: i32_from_le_bytes(bytes),
                payload: payload_text(rest.take(payload_end(rest))),
                response_type: i32_from_le_bytes(bytes.skip(8)),
            },
        )
    }
}

/// There is only one place where a payload stops.
pub proof fn lemma_payload_end_unique(bytes: Seq<u8>, end: int)
    requires
        is_payload_end(bytes, end),
    ensures
        payload_end(bytes) == end,
{
    let chosen = payload_end(bytes);
    if chosen < end {
        assert(bytes[chosen] != 0);
    } else if end < chosen {
        assert(bytes[end] != 0);
    }
}

/// Decoding undoes encoding. The bytes of a request, read as a reply, give
/// back its type tag and its payload, provided the payload's bytes hold no
/// zero byte, at which the reader would stop. The size they give is the
/// payload's byte length as the length field holds it.
pub proof fn lemma_decode_encoded(packet_type: i32, payload: Seq<char>)
    requires
        !encode_utf8(payload).contains(0u8),
    ensures
        decoded(packet_bytes(packet_type, encode_utf8(payload))) == Some(
            ResponseFields {
                size: encode_utf8(payload).len() as i32,
                payload,
                response_type: packet_type,
            },
        ),
{
    let body = encode_utf8(payload);
    let bytes = packet_bytes(packet_type, body);
    let rest = bytes.skip(HEADER_LEN as int);
    lemma_i32_le_round_trip(body.len() as i32);
    lemma_i32_le_round_trip(packet_type);
    lemma_le_bytes_of_zero();
    assert(rest =~= body + seq![0u8, 0u8]);
    assert forall|i: int| 0 <= i < body.len() implies rest[i] != 0 by {
        assert(body.contains(body[i]));
    }
    lemma_payload_end_unique(rest, body.len() as int);
    assert(rest.take(body.len() as int) =~= body);
    encode_utf8_valid_utf8(payload);
    encode_utf8_decode_utf8(payload);
}

/// No byte of the encoding of a scalar other than zero is zero.
proof fn lemma_scalar_bytes_nonzero(scalar: u32)
    requires
        is_scalar(scalar),
        scalar != 0,
    ensures
        forall|i: int| 0 <= i < encode_scalar(scalar).len() ==> encode_scalar(scalar)[i] != 0,
{
    assert(0 < scalar <= 0x7F ==> (scalar & 0x7F) as u8 != 0) by (bit_vector);
    assert(0xC0u8 | ((scalar >> 6) & 0x1F) as u8 != 0) by (bit_vector);
    assert(0xE0u8 | ((scalar >> 12) & 0x0F) as u8 != 0) by (bit_vector);
    assert(0xF0u8 | ((scalar >> 18) & 0x7) as u8 != 0) by (bit_vector);
    assert(0x80u8 | (scalar & 0x3F) as u8 != 0) by (bit_vector);
    assert(0x80u8 | ((scalar >> 6) & 0x3F) as u8 != 0) by (bit_vector);
    assert(0x80u8 | ((scalar >> 12) & 0x3F) as u8 != 0) by (bit_vector);
}

/// A text without the character of code zero has no zero byte in its
/// encoding, so the reader does not stop inside it.
pub proof fn lemma_text_without_nul(text: Seq<char>)
    requires
        forall|i: int| 0 <= i < text.len() ==> text[i] as u32 != 0,
    ensures
        !encode_utf8(text).contains(0u8),
    decreases text.len(),
{
    if text.len() > 0 {
        let head = encode_scalar(text[0] as u32);
        let tail = encode_utf8(text.drop_first());
        char_is_scalar(text[0]);
        lemma_scalar_bytes_nonzero(text[0] as u32);
        lemma_text_without_nul(text.drop_first());
        if (head + tail).contains(0u8) {
            let i = choose|i: int| 0 <= i < (head + tail).len() && (head + tail)[i] == 0u8;
            if i >= head.len() {
                assert(tail.contains(tail[i - head.len()]));
            }
        }
    }
}

/// Too few bytes for a header never decode, and enough bytes always do:
/// what follows the header can be anything.
pub proof fn lemma_decoded_iff_header(bytes: Seq<u8>)
    ensures
        decoded(bytes) is Some <==> bytes.len() >= HEADER_LEN,
        bytes.len() == 0 ==> decoded(bytes) is None,
{
}

/// Payload bytes that are not valid UTF-8 give a reply with an empty text,
/// not a failure.
pub proof fn lemma_invalid_text_decodes_empty(bytes: Seq<u8>)
    requires
        bytes.len() >= HEADER_LEN,
        !valid_utf8(
            bytes.skip(HEADER_LEN as int).take(payload_end(bytes.skip(HEADER_LEN as int))),
        ),
    ensures
        decoded(bytes) is Some,
        decoded(bytes)->Some_0.payload == Seq::<char>::empty(),
{
}

/// Finds where the payload stops in the bytes after the header.
pub fn find_payload_end(bytes: &[u8]) -> (end: usize)
    ensures
        end == payload_end(bytes@),
        is_payload_end(bytes@, end as int),
{
    let mut end: usize = 0;
    while end < bytes.len() && bytes[end] != 0
        invariant
            end <= bytes@.len(),
            forall|i: int| 0 <= i < end ==> bytes@[i] != 0,
        decreases bytes@.len() - end,
    {
        end += 1;
    }
    proof {
        lemma_payload_end_unique(bytes@, end as int);
    }
    end
}

/// Reads payload bytes as text, leniently: bytes that are not valid UTF-8
/// give the empty text, never an error.
pub fn decode_payload(bytes: &[u8]) -> (text: String)
    ensures
        text@ == payload_text(bytes@),
{
    match std::str::from_utf8(bytes) {
        Ok(valid) => {
            proof {
                encode_utf8_decode_utf8(valid@);
            }
            valid.to_owned()
        },
        Err(_) => String::new(),
    }
}

/// Decodes the bytes of one read into a reply. Fewer bytes than a header
/// holds fail with `FailedToReadResponse`; anything longer decodes.
pub fn decode_response(buffer: &[u8]) -> (result: Result<Response, PalconError>)
    ensures
        result is Ok <==> buffer@.len() >= HEADER_LEN,
        match decoded(buffer@) {
            Some(fields) => result is Ok && result->Ok_0@ == fields,
            None => result == Err::<Response, PalconError>(PalconError::FailedToReadResponse),
        },
{
    if buffer.len() < HEADER_LEN {
        return Err(PalconError::FailedToReadResponse);
    }
    let mut buf = buffer;
    let response_size = get_i32_le(&mut buf);
    let _response_id = get_i32_le(&mut buf);
    let response_type = get_i32_le(&mut buf);
    let payload_end = find_payload_end(buf);
    let payload = decode_payload(&buf[0..payload_end]);
    proof {
        assert(buf@ =~= buffer@.skip(HEADER_LEN as int));
    }
    Ok(Response { size: response_size, payload, response_type })
}

/// Tells whether a payload leaves room for the rest of a packet, which is
/// what encoding it asks for.
pub fn payload_fits(payload: &str) -> (fits: bool)
    ensures
        fits == fits_packet(payload.spec_bytes().len()),
{
    payload.as_bytes().len() <= isize::MAX as usize - PACKET_OVERHEAD
}

/// Encodes a request: the payload's byte length, a zero sequence id, the type
/// tag, the payload as it is, and two zero bytes. The length field counts the
/// payload alone, and keeps only the low 32 bits of a length beyond its range.
pub fn encode_packet(packet_type: i32, payload: &str) -> (packet: Vec<u8>)
    requires
        fits_packet(payload.spec_bytes().len()),
    ensures
        packet@ == packet_bytes(packet_type, payload.spec_bytes()),
        packet@.len() == payload.spec_bytes().len() + PACKET_OVERHEAD,
        payload.spec_bytes().len() <= i32::MAX ==> i32_from_le_bytes(packet@)
            == payload.spec_bytes().len(),
{
    let body = payload.as_bytes();
    let mut packet = buffer_with_capacity(PACKET_OVERHEAD + body.len());
    put_i32_le(&mut packet, #[verifier::truncate] (body.len() as i32));
    put_i32_le(&mut packet, 0);
    put_i32_le(&mut packet, packet_type);
    put_slice(&mut packet, body);
    put_i16_le(&mut packet, 0);
    buffer_into_vec(packet)
}

} // verus!
