//! Little-endian two's-complement layouts of the fixed-width integers on the wire.

use vstd::prelude::*;

verus! {

/// The unsigned 32-bit value with the same bit pattern as `value`.
pub open spec fn i32_bits(value: i32) -> int {
    if value < 0 {
        value + 0x1_0000_0000
    } else {
        value as int
    }
}

/// The four bytes of `value`, least significant first.
pub open spec fn i32_le_bytes(value: i32) -> Seq<u8> {
    let bits = i32_bits(value);
    seq![
        (bits % 0x100) as u8,
        (bits / 0x100 % 0x100) as u8,
        (bits / 0x1_0000 % 0x100) as u8,
        (bits / 0x100_0000 % 0x100) as u8,
    ]
}

/// The signed 32-bit value whose bytes, least significant first, are the
/// first four of `bytes`.
pub open spec fn i32_from_le_bytes(bytes: Seq<u8>) -> i32
    recommends
        bytes.len() >= 4,
{
    let bits = bytes[0] + 0x100 * bytes[1] + 0x1_0000 * bytes[2] + 0x100_0000 * bytes[3];
    if bits >= 0x8000_0000 {
        (bits - 0x1_0000_0000) as i32
    } else {
        bits as i32
    }
}

/// The unsigned 16-bit value with the same bit pattern as `value`.
pub open spec fn i16_bits(value: i16) -> int {
    if value < 0 {
        value + 0x1_0000
    } else {
        value as int
    }
}

/// The two bytes of `value`, least significant first.
pub open spec fn i16_le_bytes(value: i16) -> Seq<u8> {
    let bits = i16_bits(value);
    seq![(bits % 0x100) as u8, (bits / 0x100 % 0x100) as u8]
}

/// Reading back the bytes of a 32-bit value gives that value.
pub proof fn lemma_i32_le_round_trip(value: i32)
    ensures
        i32_le_bytes(value).len() == 4,
        i32_from_le_bytes(i32_le_bytes(value)) == value,
{
}

/// The bytes of zero are all zero.
pub proof fn lemma_le_bytes_of_zero()
    ensures
        i32_le_bytes(0) == seq![0u8, 0u8, 0u8, 0u8],
        i16_le_bytes(0) == seq![0u8, 0u8],
{
    assert(i32_le_bytes(0) =~= seq![0u8, 0u8, 0u8, 0u8]);
    assert(i16_le_bytes(0) =~= seq![0u8, 0u8]);
}

} // verus!
