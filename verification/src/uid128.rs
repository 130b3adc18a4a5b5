//! The wide identifier: a 32 bit timestamp followed by 96 random bits,
//! written in base58.
//!
//! The identifier is its sixteen bytes; the base58 text and the checksum
//! of that text are derived from them. Thirty-two bits of seconds wrap
//! around in the year 2106.

use crate::base16::{hex_string, hex_text, lemma_hex_round_trip};
use crate::base58::{base58_decode, base58_decoded, base58_encode, base58_text};
use crate::bytes::{be_bytes, to_be_array};
use crate::crc32::{checksum, crc32};
use crate::error::{decoded_view, length_message, Error};
use crate::source::{random_bytes, unix_seconds};
use vstd::prelude::*;
use vstd::std_specs::convert::TryFromSpecImpl;
use vstd::utf8::encode_utf8;

verus! {

/// 128 bit timestamp-first unique identifier. The timestamp wraps around
/// in the year 2106.
#[derive(Debug, Clone, Copy, PartialEq, Eq)]
pub struct Uid128 {
    bytes: [u8; 16],
}

impl View for Uid128 {
    type V = Seq<u8>;

    closed spec fn view(&self) -> Seq<u8> {
        self.bytes@
    }
}

/// The sixteen bytes of a wide identifier: the low four bytes of the
/// timestamp, most significant first, then the twelve random bytes.
pub open spec fn wide_bytes(timestamp: i64, random: Seq<u8>) -> Seq<u8> {
    be_bytes(timestamp).subrange(4, 8) + random
}

/// The four bytes of `value`, most significant first.
pub open spec fn be32_bytes(value: u32) -> Seq<u8> {
    seq![
        ((value >> 24) & 0xff) as u8,
        ((value >> 16) & 0xff) as u8,
        ((value >> 8) & 0xff) as u8,
        (value & 0xff) as u8,
    ]
}

/// The checksum of an identifier with the given bytes: the CRC-32 of its
/// base58 text as UTF-8, in eight lowercase hexadecimal digits.
pub open spec fn checksum_text(bytes: Seq<u8>) -> Seq<char> {
    hex_text(be32_bytes(crc32(encode_utf8(base58_text(bytes)))))
}

/// The wide identifier that a decoder's answer stands for: sixteen decoded
/// bytes are an identifier; any other number of bytes is refused with a
/// message that reports the number; a refusal of the decoder stays as it
/// is.
pub open spec fn identified_wide(decoded: Result<Seq<u8>, Seq<char>>) -> Result<
    Seq<u8>,
    Seq<char>,
> {
    match decoded {
        Ok(bytes) => if bytes.len() == 16 {
            Ok(bytes)
        } else {
            Err(length_message(16, bytes.len()))
        },
        Err(refusal) => Err(refusal),
    }
}

/// Whether `result` is what `parsed` describes: an identifier with the
/// same bytes, or an error with the same text.
pub open spec fn reads_as_wide(
    result: Result<Uid128, Error>,
    parsed: Result<Seq<u8>, Seq<char>>,
) -> bool {
    match result {
        Ok(uid) => parsed == Ok::<Seq<u8>, Seq<char>>(uid@),
        Err(error) => parsed == Err::<Seq<u8>, Seq<char>>(error.text()),
    }
}

/// The timestamp is where the layout puts it: the first four of the
/// sixteen bytes are the low four bytes of the timestamp, and the other
/// twelve are the random bytes, untouched.
pub proof fn lemma_wide_layout(timestamp: i64, random: Seq<u8>)
    requires
        random.len() == 12,
    ensures
        wide_bytes(timestamp, random).len() == 16,
        wide_bytes(timestamp, random).subrange(0, 4) == be_bytes(timestamp).subrange(4, 8),
        wide_bytes(timestamp, random).subrange(4, 16) == random,
{
    assert(wide_bytes(timestamp, random).subrange(0, 4) =~= be_bytes(timestamp).subrange(4, 8));
    assert(wide_bytes(timestamp, random).subrange(4, 16) =~= random);
}

impl Uid128 {
    /// Identifiers are their bytes: sixteen of them, and two identifiers
    /// with the same bytes are the same.
    pub proof fn lemma_view(self, other: Uid128)
        ensures
            self@.len() == 16,
            self@ == other@ ==> self == other,
    {
        if self@ == other@ {
            vstd::array::axiom_array_ext_equal(self.bytes, other.bytes);
        }
    }

    /// Creates a new identifier from the current time and 96 random bits.
    ///
    /// The result is `from_parts` of whatever the clock and the random
    /// source gave; which identifier that is cannot be said in advance.
    /// Among `n` identifiers made within one second, two are the same with
    /// a probability of about `n * n / 2^97`.
    pub fn new() -> (uid: Uid128)
        ensures
            exists|timestamp: i64, random: Seq<u8>|
                random.len() == 12 && uid@ == wide_bytes(timestamp, random),
    {
        let timestamp = unix_seconds();
        let random: [u8; 12] = random_bytes::<12>();
        Uid128::from_parts(timestamp, random)
    }

    /// The identifier for a given second and given random bytes. Only the
    /// low 32 bits of the timestamp are kept.
    pub fn from_parts(timestamp: i64, random: [u8; 12]) -> (uid: Uid128)
        ensures
            uid@ == wide_bytes(timestamp, random@),
    {
        let seconds = to_be_array(timestamp);
        let bytes = [
            seconds[4],
            seconds[5],
            seconds[6],
            seconds[7],
            random[0],
            random[1],
            random[2],
            random[3],
            random[4],
            random[5],
            random[6],
            random[7],
            random[8],
            random[9],
            random[10],
            random[11],
        ];
        assert(bytes@ =~= wide_bytes(timestamp, random@));
        Uid128 { bytes }
    }

    /// The sixteen bytes of the identifier.
    pub fn to_bytes(&self) -> (bytes: [u8; 16])
        ensures
            bytes@ == self@,
    {
        self.bytes
    }

    /// Turns the answer of a text decoder into an identifier: the decoded
    /// bytes must be exactly sixteen, and a refusal of the decoder is
    /// passed on in its own words.
    pub fn from_decoded(decoded: Result<Vec<u8>, String>) -> (result: Result<Uid128, Error>)
        ensures
            reads_as_wide(result, identified_wide(decoded_view(decoded))),
    {
        match decoded {
            Ok(bytes) => Uid128::try_from(bytes.as_slice()),
            Err(refusal) => Err(Error::Decoding(refusal)),
        }
    }

    /// The identifier in base58, its canonical text.
    pub fn to_base58(&self) -> (text: String)
        ensures
            text@ == base58_text(self@),
            text@.len() >= 1,
            identified_wide(base58_decoded(text@)) == Ok::<Seq<u8>, Seq<char>>(self@),
    {
        base58_encode(self.bytes.as_slice())
    }

    /// The identifier in its default text form, which is base58.
    pub fn to_string(&self) -> (text: String)
        ensures
            text@ == base58_text(self@),
            text@.len() >= 1,
    {
        self.to_base58()
    }

    /// Reads an identifier from base58 text that decodes to exactly
    /// sixteen bytes.
    pub fn from_base58(value: &str) -> (result: Result<Uid128, Error>)
        ensures
            reads_as_wide(result, identified_wide(base58_decoded(value@))),
    {
        Uid128::from_decoded(base58_decode(value))
    }

    /// The checksum of the identifier: the CRC-32 of its base58 text, in
    /// eight lowercase hexadecimal digits. It depends on the identifier
    /// alone.
    pub fn checksum(&self) -> (text: String)
        ensures
            text@ == checksum_text(self@),
            text@.len() == 8,
    {
        let canonical = self.to_base58();
        let sum = checksum(canonical.as_str().as_bytes());
        let bytes = [
            #[verifier::truncate] (((sum >> 24) & 0xff) as u8),
            #[verifier::truncate] (((sum >> 16) & 0xff) as u8),
            #[verifier::truncate] (((sum >> 8) & 0xff) as u8),
            #[verifier::truncate] ((sum & 0xff) as u8),
        ];
        proof {
            assert(bytes@ =~= be32_bytes(sum));
            lemma_hex_round_trip(bytes@);
        }
        hex_string(bytes.as_slice())
    }
}

impl<'a> TryFromSpecImpl<&'a [u8]> for Uid128 {
    /// The error of a failed conversion carries text, which ghost code
    /// cannot build, so the conversion is described by the `ensures` of
    /// `try_from` and not by `try_from_spec`.
    open spec fn obeys_try_from_spec() -> bool {
        false
    }

    open spec fn try_from_spec(bytes: &'a [u8]) -> Result<Uid128, Error> {
        arbitrary()
    }
}

impl<'a> TryFrom<&'a [u8]> for Uid128 {
    type Error = Error;

    /// Reads an identifier from exactly sixteen bytes; any other number of
    /// bytes is an error that reports the number received.
    fn try_from(bytes: &'a [u8]) -> (result: Result<Uid128, Error>)
        ensures
            result is Ok <==> bytes@.len() == 16,
            result matches Ok(uid) ==> uid@ == bytes@,
            result matches Err(error) ==> error.text() == length_message(16, bytes@.len()),
    {
        if bytes.len() != 16 {
            return Err(Error::wrong_length(16, bytes.len()));
        }
        let array = [
            bytes[0],
            bytes[1],
            bytes[2],
            bytes[3],
            bytes[4],
            bytes[5],
            bytes[6],
            bytes[7],
            bytes[8],
            bytes[9],
            bytes[10],
            bytes[11],
            bytes[12],
            bytes[13],
            bytes[14],
            bytes[15],
        ];
        assert(array@ =~= bytes@);
        Ok(Uid128 { bytes: array })
    }
}

} // verus!
