//! Base16 text of identifiers, written and read with `faster-hex`.

use crate::bytes::{be_bytes, lemma_be_value_round_trip};
use crate::error::{length_message, Error};
use crate::uid::{identified, reads_as, Uid};
use vstd::prelude::*;

verus! {

/// The lowercase hexadecimal digit for a value below 16.
pub open spec fn hex_digit(nibble: int) -> char {
    if nibble < 10 {
        (0x30 + nibble) as char
    } else {
        (0x57 + nibble) as char
    }
}

/// The value of a hexadecimal digit of either case; `None` for any other
/// character.
pub open spec fn hex_value(ch: char) -> Option<int> {
    let code = ch as int;
    if 0x30 <= code <= 0x39 {
        Some(code - 0x30)
    } else if 0x61 <= code <= 0x66 {
        Some(code - 0x57)
    } else if 0x41 <= code <= 0x46 {
        Some(code - 0x37)
    } else {
        None
    }
}

/// Two lowercase hexadecimal digits for each byte, high half first.
pub open spec fn hex_text(bytes: Seq<u8>) -> Seq<char> {
    Seq::new(
        2 * bytes.len(),
        |i: int|
            hex_digit(
                if i % 2 == 0 {
                    bytes[i / 2] as int / 16
                } else {
                    bytes[i / 2] as int % 16
                },
            ),
    )
}

/// Whether `text` is an even number of hexadecimal digits and nothing
/// else.
pub open spec fn is_hex_text(text: Seq<char>) -> bool {
    &&& text.len() % 2 == 0
    &&& forall|i: int| 0 <= i < text.len() ==> (#[trigger] hex_value(text[i])) is Some
}

/// The bytes that an even number of hexadecimal digits stand for.
pub open spec fn hex_bytes(text: Seq<char>) -> Seq<u8> {
    Seq::new(
        text.len() / 2,
        |i: int| (16 * hex_value(text[2 * i]).unwrap() + hex_value(text[2 * i + 1]).unwrap()) as u8,
    )
}

/// What `faster_hex::hex_decode_vec` says, in words, when it refuses the
/// bytes of `text`.
pub uninterp spec fn hex_refusal(text: Seq<char>) -> Seq<char>;

/// What decoding `text` as hexadecimal digits gives: the bytes, or the
/// decoder's refusal.
pub open spec fn hex_decoded(text: Seq<char>) -> Result<Seq<u8>, Seq<char>> {
    if is_hex_text(text) {
        Ok(hex_bytes(text))
    } else {
        Err(hex_refusal(text))
    }
}

/// What `text` stands for in base16: the identifier whose eight bytes,
/// most significant first, its sixteen hexadecimal digits spell; or else
/// the reason why it stands for none.
pub open spec fn parse_base16(text: Seq<char>) -> Result<Uid, Seq<char>> {
    identified(hex_decoded(text))
}

/// Reading the hexadecimal text of some bytes gives the bytes back.
pub proof fn lemma_hex_round_trip(bytes: Seq<u8>)
    ensures
        hex_text(bytes).len() == 2 * bytes.len(),
        is_hex_text(hex_text(bytes)),
        hex_bytes(hex_text(bytes)) == bytes,
{
    let text = hex_text(bytes);
    assert forall|i: int| 0 <= i < text.len() implies (#[trigger] hex_value(text[i])) is Some by {
        let byte = bytes[i / 2] as int;
        assert(0 <= byte / 16 < 16 && 0 <= byte % 16 < 16);
    }
    assert forall|i: int| 0 <= i < bytes.len() implies hex_bytes(text)[i] == bytes[i] by {
        let byte = bytes[i] as int;
        assert(0 <= byte / 16 < 16 && 0 <= byte % 16 < 16);
        assert((2 * i) / 2 == i && (2 * i + 1) / 2 == i);
        assert(text[2 * i] == hex_digit(byte / 16));
        assert(text[2 * i + 1] == hex_digit(byte % 16));
        assert(hex_value(hex_digit(byte / 16)) == Some(byte / 16));
        assert(hex_value(hex_digit(byte % 16)) == Some(byte % 16));
    }
    assert(hex_bytes(text) =~= bytes);
}

/// Reading the base16 text of an identifier gives the identifier back.
pub proof fn lemma_base16_round_trip(uid: Uid)
    ensures
        hex_text(be_bytes(uid@)).len() == 16,
        parse_base16(hex_text(be_bytes(uid@))) == Ok::<Uid, Seq<char>>(uid),
{
    let text = hex_text(be_bytes(uid@));
    lemma_hex_round_trip(be_bytes(uid@));
    lemma_be_value_round_trip(uid@);
    Uid::lemma_of_view(uid@, uid);
    assert(is_hex_text(text) && text.len() == 16);
}

/// Hexadecimal digits for any other number of bytes than eight are not
/// read as an identifier.
pub proof fn lemma_base16_wrong_length(bytes: Seq<u8>)
    requires
        bytes.len() != 8,
    ensures
        parse_base16(hex_text(bytes)) == Err::<Uid, Seq<char>>(length_message(8, bytes.len())),
{
    lemma_hex_round_trip(bytes);
}

/// `faster_hex::hex_string`: two lowercase hexadecimal digits for each
/// byte, in order, with nothing before, between or after them. The call
/// panics only when twice the length overflows, which `requires` excludes.
#[verifier::external_body]
pub(crate) fn hex_string(bytes: &[u8]) -> (text: String)
    requires
        2 * bytes@.len() <= isize::MAX,
    ensures
        text@ == hex_text(bytes@),
{
    faster_hex::hex_string(bytes)
}

/// `faster_hex::hex_decode_vec` on the bytes of `text`, with its error
/// turned into the error's own words. The call succeeds exactly on an even
/// number of ASCII hexadecimal digits of either case, and then returns one
/// byte for each pair of digits, high half first. A character outside
/// ASCII is never a digit, so on the accepted texts characters and bytes
/// coincide.
#[verifier::external_body]
fn hex_decode_vec(text: &str) -> (result: Result<Vec<u8>, String>)
    ensures
        result is Ok <==> is_hex_text(text@),
        result matches Ok(bytes) ==> bytes@ == hex_bytes(text@),
        result matches Err(refusal) ==> refusal@ == hex_refusal(text@),
{
    match faster_hex::hex_decode_vec(text.as_bytes()) {
        Ok(bytes) => Ok(bytes),
        Err(error) => Err(error.to_string()),
    }
}

impl Uid {
    /// The identifier as sixteen lowercase hexadecimal digits, most
    /// significant byte first.
    pub fn to_base16(&self) -> (text: String)
        ensures
            text@ == hex_text(be_bytes(self@)),
            text@.len() == 16,
            parse_base16(text@) == Ok::<Uid, Seq<char>>(*self),
    {
        proof {
            lemma_base16_round_trip(*self);
        }
        let bytes: [u8; 8] = (*self).into();
        hex_string(bytes.as_slice())
    }

    /// The same as `to_base16`.
    pub fn to_hex(&self) -> (text: String)
        ensures
            text@ == hex_text(be_bytes(self@)),
            text@.len() == 16,
            parse_base16(text@) == Ok::<Uid, Seq<char>>(*self),
    {
        self.to_base16()
    }

    /// Reads an identifier from sixteen hexadecimal digits of either case.
    ///
    /// Text that is not an even number of hexadecimal digits is refused
    /// with the decoder's own words; digits for another number of bytes
    /// than eight are refused with a message that reports the number.
    pub fn from_base16(value: &str) -> (result: Result<Uid, Error>)
        ensures
            reads_as(result, parse_base16(value@)),
    {
        Uid::from_decoded(hex_decode_vec(value))
    }

    /// The same as `from_base16`.
    pub fn from_hex(value: &str) -> (result: Result<Uid, Error>)
        ensures
            reads_as(result, parse_base16(value@)),
    {
        Uid::from_base16(value)
    }
}

} // verus!
