//! The identifier: a 40 bit timestamp followed by 24 random bits.
//!
//! The timestamp counts seconds since the Unix epoch and occupies the high
//! bits, so identifiers made in different seconds sort by time, as
//! integers and as big-endian bytes alike. Within one second the random
//! bits decide, and nothing orders them. Forty bits of seconds wrap
//! around in about the year 36812.

use crate::bytes::{
    be_bytes, from_be_bytes, from_be_slice, lemma_be_bytes_round_trip, lemma_be_value_round_trip,
    to_be_array,
};
use crate::decimal::{signed_decimal, signed_decimal_string};
use crate::error::{decoded_view, length_message, Error};
use crate::source::{random_bytes, unix_seconds};
use vstd::prelude::*;
use vstd::std_specs::convert::{FromSpecImpl, TryFromSpecImpl};

verus! {

/// 64 bit timestamp-first unique identifier.
///
/// Two identifiers are equal exactly when their values are. The value is
/// a bit pattern and not a quantity: it is negative whenever bit 39 of the
/// timestamp is set.
#[derive(Debug, Clone, Copy, PartialEq, Eq, Structural)]
pub struct Uid(i64);

impl View for Uid {
    type V = i64;

    closed spec fn view(&self) -> i64 {
        self.0
    }
}

/// The value that holds the low 40 bits of `timestamp` above the three
/// bytes of `random`, first byte highest.
pub open spec fn packed(timestamp: i64, random: Seq<u8>) -> i64 {
    (((timestamp as u64) << 24) | ((random[0] as u64) << 16) | ((random[1] as u64) << 8) | (
    random[2] as u64)) as i64
}

/// The identifier that a decoder's answer stands for: eight decoded bytes
/// are an identifier, most significant byte first; any other number of
/// bytes is refused with a message that reports the number; a refusal of
/// the decoder stays as it is.
pub open spec fn identified(decoded: Result<Seq<u8>, Seq<char>>) -> Result<Uid, Seq<char>> {
    match decoded {
        Ok(bytes) => if bytes.len() == 8 {
            Ok(Uid::of(from_be_bytes(bytes)))
        } else {
            Err(length_message(8, bytes.len()))
        },
        Err(refusal) => Err(refusal),
    }
}

/// Whether `result` is what `parsed` describes: the same identifier, or an
/// error with the same text.
pub open spec fn reads_as(result: Result<Uid, Error>, parsed: Result<Uid, Seq<char>>) -> bool {
    match result {
        Ok(uid) => parsed == Ok::<Uid, Seq<char>>(uid),
        Err(error) => parsed == Err::<Uid, Seq<char>>(error.text()),
    }
}

/// The timestamp is where the layout puts it: the first five bytes of
/// the identifier are the low five bytes of the timestamp, and the last
/// three are the random bytes, untouched.
pub proof fn lemma_packed_layout(timestamp: i64, random: Seq<u8>)
    requires
        random.len() == 3,
    ensures
        be_bytes(packed(timestamp, random)).subrange(0, 5) == be_bytes(timestamp).subrange(3, 8),
        be_bytes(packed(timestamp, random)).subrange(5, 8) == random,
{
    let seconds = timestamp as u64;
    let r0 = random[0];
    let r1 = random[1];
    let r2 = random[2];
    let raw = (seconds << 24) | ((r0 as u64) << 16) | ((r1 as u64) << 8) | (r2 as u64);
    assert((raw as i64) as u64 == raw) by (bit_vector);
    assert(raw == (seconds << 24) | ((r0 as u64) << 16) | ((r1 as u64) << 8) | (r2 as u64) ==> ((
    raw >> 56) & 0xff) == ((seconds >> 32) & 0xff) && ((raw >> 48) & 0xff) == ((seconds >> 24)
        & 0xff) && ((raw >> 40) & 0xff) == ((seconds >> 16) & 0xff) && ((raw >> 32) & 0xff) == ((
    seconds >> 8) & 0xff) && ((raw >> 24) & 0xff) == (seconds & 0xff) && ((raw >> 16) & 0xff) as u8
        == r0 && ((raw >> 8) & 0xff) as u8 == r1 && (raw & 0xff) as u8 == r2) by (bit_vector);
    assert(be_bytes(packed(timestamp, random)).subrange(0, 5) =~= be_bytes(timestamp).subrange(
        3,
        8,
    ));
    assert(be_bytes(packed(timestamp, random)).subrange(5, 8) =~= random);
}

/// For a timestamp that is not negative and fits in 39 bits, the value is
/// the timestamp times 2^24 plus the random bytes read as a number.
pub proof fn lemma_packed_value(timestamp: i64, random: Seq<u8>)
    requires
        0 <= timestamp < 0x80_0000_0000,
        random.len() == 3,
    ensures
        packed(timestamp, random) == timestamp * 0x100_0000 + random[0] * 0x1_0000 + random[1]
            * 0x100 + random[2],
{
    let seconds = timestamp as u64;
    let r0 = random[0];
    let r1 = random[1];
    let r2 = random[2];
    assert(seconds < 0x80_0000_0000 ==> (((seconds << 24) | ((r0 as u64) << 16) | ((r1 as u64) << 8)
        | (r2 as u64)) as i64) == seconds * 0x100_0000 + r0 * 0x1_0000 + r1 * 0x100 + r2)
        by (bit_vector);
}

/// Identifiers made in different seconds are ordered by time, whatever
/// their random bytes, as long as the timestamps are not negative and fit
/// in 39 bits.
pub proof fn lemma_packed_time_ordered(
    earlier: i64,
    later: i64,
    random_earlier: Seq<u8>,
    random_later: Seq<u8>,
)
    requires
        0 <= earlier < later < 0x80_0000_0000,
        random_earlier.len() == 3,
        random_later.len() == 3,
    ensures
        packed(earlier, random_earlier) < packed(later, random_later),
{
    let a = earlier as u64;
    let b = later as u64;
    let a0 = random_earlier[0];
    let a1 = random_earlier[1];
    let a2 = random_earlier[2];
    let b0 = random_later[0];
    let b1 = random_later[1];
    let b2 = random_later[2];
    assert(a < b && b < 0x80_0000_0000 ==> (((a << 24) | ((a0 as u64) << 16) | ((a1 as u64) << 8) | (
    a2 as u64)) as i64) < (((b << 24) | ((b0 as u64) << 16) | ((b1 as u64) << 8) | (b2 as u64))
        as i64)) by (bit_vector);
}

/// Reading the eight bytes of an identifier gives the identifier back.
pub proof fn lemma_bytes_round_trip(uid: Uid)
    ensures
        be_bytes(uid@).len() == 8,
        identified(Ok(be_bytes(uid@))) == Ok::<Uid, Seq<char>>(uid),
{
    lemma_be_value_round_trip(uid@);
    Uid::lemma_of_view(uid@, uid);
}

/// Every eight bytes are the bytes of the identifier they are read as.
pub proof fn lemma_identified_bytes(bytes: Seq<u8>)
    requires
        bytes.len() == 8,
    ensures
        identified(Ok(bytes)) matches Ok(uid) && be_bytes(uid@) == bytes,
{
    lemma_be_bytes_round_trip(bytes);
    Uid::lemma_of_view(from_be_bytes(bytes), Uid::of(from_be_bytes(bytes)));
}

/// Bytes of any other number than eight are never read as an identifier,
/// whatever text they were decoded from.
pub proof fn lemma_wrong_length_refused(bytes: Seq<u8>)
    requires
        bytes.len() != 8,
    ensures
        identified(Ok(bytes)) == Err::<Uid, Seq<char>>(length_message(8, bytes.len())),
{
}

impl Uid {
    /// Creates a new identifier from the current time and 24 random bits.
    ///
    /// The result is `from_parts` of whatever the clock and the random
    /// source gave; which identifier that is cannot be said in advance.
    /// The random bits are for telling identifiers apart, not for secrecy:
    /// among `n` identifiers made within one second, two are the same with
    /// a probability of about `n * n / 2^25`.
    pub fn new() -> (uid: Uid)
        ensures
            exists|timestamp: i64, random: Seq<u8>|
                random.len() == 3 && uid@ == packed(timestamp, random),
    {
        let timestamp = unix_seconds();
        let random: [u8; 3] = random_bytes::<3>();
        Uid::from_parts(timestamp, random)
    }

    /// The identifier for a given second and given random bytes: the
    /// timestamp shifted left by 24 bits, with the three bytes below it.
    /// Timestamp bits above the low 40 are lost.
    pub fn from_parts(timestamp: i64, random: [u8; 3]) -> (uid: Uid)
        ensures
            uid@ == packed(timestamp, random@),
    {
        let seconds = #[verifier::truncate] (timestamp as u64);
        let raw = (seconds << 24) | ((random[0] as u64) << 16) | ((random[1] as u64) << 8) | (
        random[2] as u64);
        Uid(#[verifier::truncate] (raw as i64))
    }

    /// Turns the answer of a text decoder into an identifier: the decoded
    /// bytes must be exactly eight, and a refusal of the decoder is passed
    /// on in its own words.
    pub fn from_decoded(decoded: Result<Vec<u8>, String>) -> (result: Result<Uid, Error>)
        ensures
            reads_as(result, identified(decoded_view(decoded))),
    {
        match decoded {
            Ok(bytes) => Uid::try_from(bytes.as_slice()),
            Err(refusal) => Err(Error::Decoding(refusal)),
        }
    }

    /// The identifier in its default text form: the value as a signed
    /// decimal number.
    pub fn to_string(&self) -> (text: String)
        ensures
            text@ == signed_decimal(self@ as int),
            text@.len() >= 1,
    {
        signed_decimal_string(self.0)
    }

    /// The identifier with the given value.
    pub closed spec fn of(value: i64) -> Uid {
        Uid(value)
    }

    /// An identifier is its value: `of` and the view are inverse to each
    /// other.
    pub broadcast proof fn lemma_of_view(value: i64, uid: Uid)
        ensures
            #[trigger] Uid::of(value)@ == value,
            Uid::of(#[trigger] uid@) == uid,
    {
    }

    /// Two identifiers are equal exactly when their values are.
    pub proof fn lemma_equal_by_value(self, other: Uid)
        ensures
            self == other <==> self@ == other@,
    {
    }
}

impl Default for Uid {
    fn default() -> (uid: Uid)
        ensures
            uid == Uid::of(0),
            uid@ == 0,
    {
        Uid(0)
    }
}

impl FromSpecImpl<i64> for Uid {
    open spec fn obeys_from_spec() -> bool {
        true
    }

    open spec fn from_spec(value: i64) -> Uid {
        Uid::of(value)
    }
}

impl From<i64> for Uid {
    fn from(value: i64) -> (uid: Uid)
        ensures
            uid@ == value,
    {
        Uid(value)
    }
}

impl FromSpecImpl<Uid> for i64 {
    open spec fn obeys_from_spec() -> bool {
        true
    }

    open spec fn from_spec(uid: Uid) -> i64 {
        uid@
    }
}

impl From<Uid> for i64 {
    fn from(uid: Uid) -> (value: i64) {
        uid.0
    }
}

impl FromSpecImpl<Uid> for [u8; 8] {
    open spec fn obeys_from_spec() -> bool {
        true
    }

    open spec fn from_spec(uid: Uid) -> [u8; 8] {
        choose|bytes: [u8; 8]| bytes@ == be_bytes(uid@)
    }
}

impl From<Uid> for [u8; 8] {
    fn from(uid: Uid) -> (bytes: [u8; 8])
        ensures
            bytes@ == be_bytes(uid@),
    {
        let bytes = to_be_array(uid.0);
        proof {
            let chosen = choose|other: [u8; 8]| other@ == be_bytes(uid@);
            assert(chosen@ =~= bytes@);
            vstd::array::axiom_array_ext_equal(chosen, bytes);
        }
        bytes
    }
}

impl<'a> TryFromSpecImpl<&'a [u8]> for Uid {
    /// The error of a failed conversion carries text, which ghost code
    /// cannot build, so the conversion is described by the `ensures` of
    /// `try_from` and not by `try_from_spec`.
    open spec fn obeys_try_from_spec() -> bool {
        false
    }

    open spec fn try_from_spec(bytes: &'a [u8]) -> Result<Uid, Error> {
        arbitrary()
    }
}

impl<'a> TryFrom<&'a [u8]> for Uid {
    type Error = Error;

    /// Reads an identifier from exactly eight bytes, most significant
    /// first; any other number of bytes is an error that reports the number
    /// received.
    fn try_from(bytes: &'a [u8]) -> (result: Result<Uid, Error>)
        ensures
            result is Ok <==> bytes@.len() == 8,
            result matches Ok(uid) ==> uid == Uid::of(from_be_bytes(bytes@)),
            result matches Err(error) ==> error.text() == length_message(8, bytes@.len()),
    {
        if bytes.len() != 8 {
            return Err(Error::wrong_length(8, bytes.len()));
        }
        Ok(Uid(from_be_slice(bytes)))
    }
}

} // verus!
