//! Big-endian byte layout of 64 bit values.

use vstd::prelude::*;

verus! {

/// The eight bytes of `value` in two's complement, most significant first.
pub open spec fn be_bytes(value: i64) -> Seq<u8> {
    let raw = value as u64;
    seq![
        ((raw >> 56) & 0xff) as u8,
        ((raw >> 48) & 0xff) as u8,
        ((raw >> 40) & 0xff) as u8,
        ((raw >> 32) & 0xff) as u8,
        ((raw >> 24) & 0xff) as u8,
        ((raw >> 16) & 0xff) as u8,
        ((raw >> 8) & 0xff) as u8,
        (raw & 0xff) as u8,
    ]
}

/// The unsigned value whose big-endian form is the first eight bytes of
/// `bytes`.
pub open spec fn be_raw(bytes: Seq<u8>) -> u64 {
    (bytes[0] as u64) << 56 | (bytes[1] as u64) << 48 | (bytes[2] as u64) << 40 | (bytes[3] as u64)
        << 32 | (bytes[4] as u64) << 24 | (bytes[5] as u64) << 16 | (bytes[6] as u64) << 8 | (
    bytes[7] as u64)
}

/// The signed value whose big-endian two's complement form is the first
/// eight bytes of `bytes`.
pub open spec fn from_be_bytes(bytes: Seq<u8>) -> i64 {
    be_raw(bytes) as i64
}

/// As a number, eight bytes read most significant first are the sum of
/// each byte times the power of 256 that its place stands for.
pub proof fn lemma_be_raw_value(bytes: Seq<u8>)
    ensures
        be_raw(bytes) == bytes[0] * 0x100_0000_0000_0000 + bytes[1] * 0x1_0000_0000_0000 + bytes[2]
            * 0x100_0000_0000 + bytes[3] * 0x1_0000_0000 + bytes[4] * 0x100_0000 + bytes[5]
            * 0x1_0000 + bytes[6] * 0x100 + bytes[7],
{
    let b0 = bytes[0];
    let b1 = bytes[1];
    let b2 = bytes[2];
    let b3 = bytes[3];
    let b4 = bytes[4];
    let b5 = bytes[5];
    let b6 = bytes[6];
    let b7 = bytes[7];
    assert(((b0 as u64) << 56 | (b1 as u64) << 48 | (b2 as u64) << 40 | (b3 as u64) << 32 | (b4 as u64)
        << 24 | (b5 as u64) << 16 | (b6 as u64) << 8 | (b7 as u64)) == b0 * 0x100_0000_0000_0000
        + b1 * 0x1_0000_0000_0000 + b2 * 0x100_0000_0000 + b3 * 0x1_0000_0000 + b4 * 0x100_0000 + b5
        * 0x1_0000 + b6 * 0x100 + b7) by (bit_vector);
}

/// Reading back the bytes of a value gives the value.
pub proof fn lemma_be_value_round_trip(value: i64)
    ensures
        be_bytes(value).len() == 8,
        from_be_bytes(be_bytes(value)) == value,
{
    let raw = value as u64;
    let bytes = be_bytes(value);
    assert(bytes[0] == ((raw >> 56) & 0xff) as u8);
    assert(bytes[7] == (raw & 0xff) as u8);
    assert((((raw >> 56) & 0xff) as u8 as u64) << 56 | (((raw >> 48) & 0xff) as u8 as u64) << 48 | (((
    raw >> 40) & 0xff) as u8 as u64) << 40 | (((raw >> 32) & 0xff) as u8 as u64) << 32 | (((raw
        >> 24) & 0xff) as u8 as u64) << 24 | (((raw >> 16) & 0xff) as u8 as u64) << 16 | (((raw
        >> 8) & 0xff) as u8 as u64) << 8 | ((raw & 0xff) as u8 as u64) == raw) by (bit_vector);
    assert((value as u64) as i64 == value) by (bit_vector);
}

/// Writing out the value read from eight bytes gives the bytes.
pub proof fn lemma_be_bytes_round_trip(bytes: Seq<u8>)
    requires
        bytes.len() == 8,
    ensures
        be_bytes(from_be_bytes(bytes)) == bytes,
{
    let b0 = bytes[0];
    let b1 = bytes[1];
    let b2 = bytes[2];
    let b3 = bytes[3];
    let b4 = bytes[4];
    let b5 = bytes[5];
    let b6 = bytes[6];
    let b7 = bytes[7];
    let raw = be_raw(bytes);
    assert((raw as i64) as u64 == raw) by (bit_vector);
    assert(raw == (b0 as u64) << 56 | (b1 as u64) << 48 | (b2 as u64) << 40 | (b3 as u64) << 32 | (
    b4 as u64) << 24 | (b5 as u64) << 16 | (b6 as u64) << 8 | (b7 as u64) ==> ((raw >> 56) & 0xff)
        as u8 == b0 && ((raw >> 48) & 0xff) as u8 == b1 && ((raw >> 40) & 0xff) as u8 == b2 && ((raw
        >> 32) & 0xff) as u8 == b3 && ((raw >> 24) & 0xff) as u8 == b4 && ((raw >> 16) & 0xff) as u8
        == b5 && ((raw >> 8) & 0xff) as u8 == b6 && (raw & 0xff) as u8 == b7) by (bit_vector);
    assert(be_bytes(from_be_bytes(bytes)) =~= bytes);
}

/// Writes `value` as eight bytes, most significant first.
pub fn to_be_array(value: i64) -> (bytes: [u8; 8])
    ensures
        bytes@ == be_bytes(value),
{
    let raw = #[verifier::truncate] (value as u64);
    let bytes = [
        #[verifier::truncate] (((raw >> 56) & 0xff) as u8),
        #[verifier::truncate] (((raw >> 48) & 0xff) as u8),
        #[verifier::truncate] (((raw >> 40) & 0xff) as u8),
        #[verifier::truncate] (((raw >> 32) & 0xff) as u8),
        #[verifier::truncate] (((raw >> 24) & 0xff) as u8),
        #[verifier::truncate] (((raw >> 16) & 0xff) as u8),
        #[verifier::truncate] (((raw >> 8) & 0xff) as u8),
        #[verifier::truncate] ((raw & 0xff) as u8),
    ];
    assert(bytes@ =~= be_bytes(value));
    bytes
}

/// Reads a value from a slice of eight bytes, most significant first.
pub fn from_be_slice(bytes: &[u8]) -> (value: i64)
    requires
        bytes@.len() == 8,
    ensures
        value == from_be_bytes(bytes@),
{
    let raw = (bytes[0] as u64) << 56 | (bytes[1] as u64) << 48 | (bytes[2] as u64) << 40 | (
    bytes[3] as u64) << 32 | (bytes[4] as u64) << 24 | (bytes[5] as u64) << 16 | (bytes[6] as u64)
        << 8 | (bytes[7] as u64);
    #[verifier::truncate]
    (raw as i64)
}

} // verus!
