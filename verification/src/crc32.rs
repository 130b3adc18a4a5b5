//! The CRC-32 checksum of a byte string (the reflected polynomial
//! 0xEDB88320, as used by zlib and Ethernet).

use vstd::prelude::*;

verus! {

/// The reflected generator polynomial.
pub const POLYNOMIAL: u32 = 0xEDB8_8320;

/// One round of the division: the register moves on by one bit.
pub open spec fn crc32_step(register: u32) -> u32 {
    if register & 1 == 1 {
        (register >> 1) ^ POLYNOMIAL
    } else {
        register >> 1
    }
}

/// `rounds` rounds of the division.
pub open spec fn crc32_rounds(register: u32, rounds: nat) -> u32
    decreases rounds,
{
    if rounds == 0 {
        register
    } else {
        crc32_step(crc32_rounds(register, (rounds - 1) as nat))
    }
}

/// The register after one more byte of input.
pub open spec fn crc32_byte(register: u32, byte: u8) -> u32 {
    crc32_rounds(register ^ (byte as u32), 8)
}

/// The register after all of `bytes`, taken in order.
pub open spec fn crc32_fold(register: u32, bytes: Seq<u8>) -> u32
    decreases bytes.len(),
{
    if bytes.len() == 0 {
        register
    } else {
        crc32_byte(crc32_fold(register, bytes.drop_last()), bytes.last())
    }
}

/// The CRC-32 of `bytes`: the register starts with all bits set and is
/// inverted at the end.
pub open spec fn crc32(bytes: Seq<u8>) -> u32 {
    crc32_fold(0xFFFF_FFFF, bytes) ^ 0xFFFF_FFFF
}

/// Computes the CRC-32 of `bytes`.
pub fn checksum(bytes: &[u8]) -> (sum: u32)
    ensures
        sum == crc32(bytes@),
{
    let mut register: u32 = 0xFFFF_FFFF;
    let mut index: usize = 0;
    while index < bytes.len()
        invariant
            index <= bytes@.len(),
            register == crc32_fold(0xFFFF_FFFF, bytes@.take(index as int)),
        decreases bytes@.len() - index,
    {
        let ghost before = register;
        register = register ^ (bytes[index] as u32);
        let mut round: u8 = 0;
        while round < 8
            invariant
                round <= 8,
                register == crc32_rounds(before ^ (bytes@[index as int] as u32), round as nat),
                index < bytes@.len(),
            decreases 8 - round,
        {
            register = if register & 1 == 1 {
                (register >> 1) ^ POLYNOMIAL
            } else {
                register >> 1
            };
            round = round + 1;
        }
        proof {
            let longer = bytes@.take(index + 1);
            assert(longer.drop_last() =~= bytes@.take(index as int));
            assert(longer.last() == bytes@[index as int]);
        }
        index = index + 1;
    }
    assert(bytes@.take(index as int) =~= bytes@);
    register ^ 0xFFFF_FFFF
}

} // verus!
