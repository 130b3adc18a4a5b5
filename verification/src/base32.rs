//! Base32 text of identifiers, in the RFC 4648 alphabet.

use crate::bytes::{be_bytes, lemma_be_value_round_trip};
use crate::error::{overlong_message, Error};
use crate::rfc4648::{
    base32_decode, base32_encode, base32_nopad_decode, base32_nopad_encode, rfc4648_decoded,
    rfc4648_text,
};
use crate::uid::{identified, reads_as, Uid};
use vstd::prelude::*;
use vstd::utf8::{encode_utf8, is_ascii_chars_encode_utf8};

verus! {

/// What `text` stands for in base32, padded or not: the identifier whose
/// eight bytes it decodes to, or else the reason why it stands for none.
/// A text of more than an eighth of the addressable bytes is refused
/// without being decoded.
pub open spec fn parse_base32(padded: bool, text: Seq<char>) -> Result<Uid, Seq<char>> {
    if encode_utf8(text).len() > usize::MAX / 8 {
        Err(overlong_message())
    } else {
        identified(rfc4648_decoded(5, padded, text))
    }
}

impl Uid {
    /// The identifier in padded base32: sixteen characters.
    pub fn to_base32(&self) -> (text: String)
        ensures
            text@ == rfc4648_text(5, true, be_bytes(self@)),
            text@.len() == 16,
            parse_base32(true, text@) == Ok::<Uid, Seq<char>>(*self),
    {
        let bytes: [u8; 8] = (*self).into();
        let text = base32_encode(bytes.as_slice());
        proof {
            is_ascii_chars_encode_utf8(text@);
            lemma_be_value_round_trip(self@);
            Uid::lemma_of_view(self@, *self);
        }
        text
    }

    /// The identifier in base32 without padding: thirteen characters.
    pub fn to_unpadded_base32(&self) -> (text: String)
        ensures
            text@ == rfc4648_text(5, false, be_bytes(self@)),
            text@.len() == 13,
            parse_base32(false, text@) == Ok::<Uid, Seq<char>>(*self),
    {
        let bytes: [u8; 8] = (*self).into();
        let text = base32_nopad_encode(bytes.as_slice());
        proof {
            is_ascii_chars_encode_utf8(text@);
            lemma_be_value_round_trip(self@);
            Uid::lemma_of_view(self@, *self);
        }
        text
    }

    /// Reads an identifier from padded base32 text that decodes to exactly
    /// eight bytes. Text that does not decode is refused with the
    /// decoder's own words, and text longer than the decoder takes is
    /// refused unread.
    pub fn from_base32(value: &str) -> (result: Result<Uid, Error>)
        ensures
            reads_as(result, parse_base32(true, value@)),
    {
        if value.as_bytes().len() > usize::MAX / 8 {
            return Err(Error::overlong());
        }
        Uid::from_decoded(base32_decode(value))
    }

    /// Reads an identifier from unpadded base32 text that decodes to
    /// exactly eight bytes. Text that does not decode is refused with the
    /// decoder's own words, and text longer than the decoder takes is
    /// refused unread.
    pub fn from_unpadded_base32(value: &str) -> (result: Result<Uid, Error>)
        ensures
            reads_as(result, parse_base32(false, value@)),
    {
        if value.as_bytes().len() > usize::MAX / 8 {
            return Err(Error::overlong());
        }
        Uid::from_decoded(base32_nopad_decode(value))
    }
}

} // verus!
