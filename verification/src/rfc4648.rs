//! Base32 and base64 text of byte strings, written and read with
//! `data-encoding`.

use crate::error::{decoded_to, decoded_view};
use vstd::prelude::*;
use vstd::utf8::{encode_utf8, is_ascii_chars};

verus! {

/// What `data_encoding::Encoding::encode` returns for `bytes` under the
/// RFC 4648 alphabet with symbols of `bits` bits (5 for base32, 6 for
/// base64), with or without padding.
pub uninterp spec fn rfc4648_text(bits: nat, padded: bool, bytes: Seq<u8>) -> Seq<char>;

/// What `data_encoding::Encoding::decode` returns for the bytes of `text`
/// under the same alphabets: the decoded bytes, or the error in its own
/// words.
pub uninterp spec fn rfc4648_decoded(bits: nat, padded: bool, text: Seq<char>) -> Result<
    Seq<u8>,
    Seq<char>,
>;

/// The number of characters that encode `count` bytes: one symbol for
/// every `bits` bits begun and, with padding, filled up to whole blocks of
/// eight (base32) or four (base64) characters.
pub open spec fn rfc4648_len(bits: nat, padded: bool, count: nat) -> nat {
    if !padded {
        (8 * count + bits - 1) as nat / bits
    } else if bits == 5 {
        (count + 4) / 5 * 8
    } else {
        (count + 2) / 3 * 4
    }
}

/// `data_encoding::BASE32.encode`. The text is ASCII, has the length that
/// `encode_len` gives, and decodes to the bytes it was made from; the call
/// panics only on inputs longer than `requires` admits.
#[verifier::external_body]
pub(crate) fn base32_encode(bytes: &[u8]) -> (text: String)
    requires
        bytes@.len() <= usize::MAX / 512,
    ensures
        text@ == rfc4648_text(5, true, bytes@),
        text@.len() == rfc4648_len(5, true, bytes@.len()),
        is_ascii_chars(text@),
        rfc4648_decoded(5, true, text@) == decoded_to(bytes@),
{
    data_encoding::BASE32.encode(bytes)
}

/// `data_encoding::BASE32_NOPAD.encode`, with the same claims as for the
/// padded alphabet.
#[verifier::external_body]
pub(crate) fn base32_nopad_encode(bytes: &[u8]) -> (text: String)
    requires
        bytes@.len() <= usize::MAX / 512,
    ensures
        text@ == rfc4648_text(5, false, bytes@),
        text@.len() == rfc4648_len(5, false, bytes@.len()),
        is_ascii_chars(text@),
        rfc4648_decoded(5, false, text@) == decoded_to(bytes@),
{
    data_encoding::BASE32_NOPAD.encode(bytes)
}

/// `data_encoding::BASE64.encode`, with the same claims.
#[verifier::external_body]
pub(crate) fn base64_encode(bytes: &[u8]) -> (text: String)
    requires
        bytes@.len() <= usize::MAX / 512,
    ensures
        text@ == rfc4648_text(6, true, bytes@),
        text@.len() == rfc4648_len(6, true, bytes@.len()),
        is_ascii_chars(text@),
        rfc4648_decoded(6, true, text@) == decoded_to(bytes@),
{
    data_encoding::BASE64.encode(bytes)
}

/// `data_encoding::BASE64_NOPAD.encode`, with the same claims.
#[verifier::external_body]
pub(crate) fn base64_nopad_encode(bytes: &[u8]) -> (text: String)
    requires
        bytes@.len() <= usize::MAX / 512,
    ensures
        text@ == rfc4648_text(6, false, bytes@),
        text@.len() == rfc4648_len(6, false, bytes@.len()),
        is_ascii_chars(text@),
        rfc4648_decoded(6, false, text@) == decoded_to(bytes@),
{
    data_encoding::BASE64_NOPAD.encode(bytes)
}

/// `data_encoding::BASE32.decode` on the bytes of `text`, with its error
/// turned into the error's own words. The call panics only on inputs
/// longer than `requires` admits.
#[verifier::external_body]
pub(crate) fn base32_decode(text: &str) -> (result: Result<Vec<u8>, String>)
    requires
        encode_utf8(text@).len() <= usize::MAX / 8,
    ensures
        decoded_view(result) == rfc4648_decoded(5, true, text@),
{
    match data_encoding::BASE32.decode(text.as_bytes()) {
        Ok(bytes) => Ok(bytes),
        Err(error) => Err(error.to_string()),
    }
}

/// `data_encoding::BASE32_NOPAD.decode`, in the same way.
#[verifier::external_body]
pub(crate) fn base32_nopad_decode(text: &str) -> (result: Result<Vec<u8>, String>)
    requires
        encode_utf8(text@).len() <= usize::MAX / 8,
    ensures
        decoded_view(result) == rfc4648_decoded(5, false, text@),
{
    match data_encoding::BASE32_NOPAD.decode(text.as_bytes()) {
        Ok(bytes) => Ok(bytes),
        Err(error) => Err(error.to_string()),
    }
}

/// `data_encoding::BASE64.decode`, in the same way.
#[verifier::external_body]
pub(crate) fn base64_decode(text: &str) -> (result: Result<Vec<u8>, String>)
    requires
        encode_utf8(text@).len() <= usize::MAX / 8,
    ensures
        decoded_view(result) == rfc4648_decoded(6, true, text@),
{
    match data_encoding::BASE64.decode(text.as_bytes()) {
        Ok(bytes) => Ok(bytes),
        Err(error) => Err(error.to_string()),
    }
}

/// `data_encoding::BASE64_NOPAD.decode`, in the same way.
#[verifier::external_body]
pub(crate) fn base64_nopad_decode(text: &str) -> (result: Result<Vec<u8>, String>)
    requires
        encode_utf8(text@).len() <= usize::MAX / 8,
    ensures
        decoded_view(result) == rfc4648_decoded(6, false, text@),
{
    match data_encoding::BASE64_NOPAD.decode(text.as_bytes()) {
        Ok(bytes) => Ok(bytes),
        Err(error) => Err(error.to_string()),
    }
}

} // verus!
