//! Base64 text of identifiers, in the standard RFC 4648 alphabet.

use crate::bytes::{be_bytes, lemma_be_value_round_trip};
use crate::error::{overlong_message, Error};
use crate::rfc4648::{
    base64_decode, base64_encode, base64_nopad_decode, base64_nopad_encode, rfc4648_decoded,
    rfc4648_text,
};
use crate::uid::{identified, reads_as, Uid};
use vstd::prelude::*;
use vstd::utf8::{encode_utf8, is_ascii_chars_encode_utf8};

verus! {

/// What `text` stands for in base64, padded or not: the identifier whose
/// eight bytes it decodes to, or else the reason why it stands for none.
/// A text of more than an eighth of the addressable bytes is refused
/// without being decoded.
pub open spec fn parse_base64(padded: bool, text: Seq<char>) -> Result<Uid, Seq<char>> {
    if encode_utf8(text).len() > usize::MAX / 8 {
        Err(overlong_message())
    } else {
        identified(rfc4648_decoded(6, padded, text))
    }
}

impl Uid {
    /// The identifier in padded base64: twelve characters.
    pub fn to_base64(&self) -> (text: String)
        ensures
            text@ == rfc4648_text(6, true, be_bytes(self@)),
            text@.len() == 12,
            parse_base64(true, text@) == Ok::<Uid, Seq<char>>(*self),
    {
        let bytes: [u8; 8] = (*self).into();
        let text = base64_encode(bytes.as_slice());
        proof {
            is_ascii_chars_encode_utf8(text@);
            lemma_be_value_round_trip(self@);
            Uid::lemma_of_view(self@, *self);
        }
        text
    }

    /// The identifier in base64 without padding: eleven characters.
    pub fn to_unpadded_base64(&self) -> (text: String)
        ensures
            text@ == rfc4648_text(6, false, be_bytes(self@)),
            text@.len() == 11,
            parse_base64(false, text@) == Ok::<Uid, Seq<char>>(*self),
    {
        let bytes: [u8; 8] = (*self).into();
        let text = base64_nopad_encode(bytes.as_slice());
        proof {
            is_ascii_chars_encode_utf8(text@);
            lemma_be_value_round_trip(self@);
            Uid::lemma_of_view(self@, *self);
        }
        text
    }

    /// Reads an identifier from padded base64 text that decodes to exactly
    /// eight bytes. Text that does not decode is refused with the
    /// decoder's own words, and text longer than the decoder takes is
    /// refused unread.
    pub fn from_base64(value: &str) -> (result: Result<Uid, Error>)
        ensures
            reads_as(result, parse_base64(true, value@)),
    {
        if value.as_bytes().len() > usize::MAX / 8 {
            return Err(Error::overlong());
        }
        Uid::from_decoded(base64_decode(value))
    }

    /// Reads an identifier from unpadded base64 text that decodes to
    /// exactly eight bytes. Text that does not decode is refused with the
    /// decoder's own words, and text longer than the decoder takes is
    /// refused unread.
    pub fn from_unpadded_base64(value: &str) -> (result: Result<Uid, Error>)
        ensures
            reads_as(result, parse_base64(false, value@)),
    {
        if value.as_bytes().len() > usize::MAX / 8 {
            return Err(Error::overlong());
        }
        Uid::from_decoded(base64_nopad_decode(value))
    }
}

} // verus!
