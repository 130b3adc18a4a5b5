//! Base58 text of identifiers in the Bitcoin alphabet, written and read
//! with `bs58`.

use crate::bytes::{be_bytes, lemma_be_value_round_trip};
use crate::error::{decoded_to, decoded_view, Error};
use crate::uid::{identified, reads_as, Uid};
use vstd::prelude::*;

verus! {

/// What `bs58` encodes `bytes` to in the Bitcoin alphabet.
pub uninterp spec fn base58_text(bytes: Seq<u8>) -> Seq<char>;

/// What `bs58` decodes `text` to in the Bitcoin alphabet: the bytes, or
/// the error in its own words.
pub uninterp spec fn base58_decoded(text: Seq<char>) -> Result<Seq<u8>, Seq<char>>;

/// `bs58::encode(bytes).with_alphabet(bs58::Alphabet::BITCOIN)
/// .into_string()`. The text decodes to the bytes it was made from, and
/// is not empty unless the bytes are: every byte that is not zero gives at
/// least one digit, and every leading zero byte gives one. The
/// buffer that the call sizes is one and a half times the input, which
/// `requires` keeps from overflowing.
#[verifier::external_body]
pub(crate) fn base58_encode(bytes: &[u8]) -> (text: String)
    requires
        bytes@.len() <= usize::MAX / 2,
    ensures
        text@ == base58_text(bytes@),
        base58_decoded(text@) == decoded_to(bytes@),
        bytes@.len() > 0 ==> text@.len() > 0,
{
    bs58::encode(bytes).with_alphabet(bs58::Alphabet::BITCOIN).into_string()
}

/// `bs58::decode(text).into_vec()`, which reads the Bitcoin alphabet, with
/// its error turned into the error's own words.
#[verifier::external_body]
pub(crate) fn base58_decode(text: &str) -> (result: Result<Vec<u8>, String>)
    ensures
        decoded_view(result) == base58_decoded(text@),
{
    match bs58::decode(text).into_vec() {
        Ok(bytes) => Ok(bytes),
        Err(error) => Err(error.to_string()),
    }
}

/// What `text` stands for in base58: the identifier whose eight bytes it
/// decodes to, or else the reason why it stands for none.
pub open spec fn parse_base58(text: Seq<char>) -> Result<Uid, Seq<char>> {
    identified(base58_decoded(text))
}

impl Uid {
    /// The identifier in base58.
    pub fn to_base58(&self) -> (text: String)
        ensures
            text@ == base58_text(be_bytes(self@)),
            text@.len() >= 1,
            parse_base58(text@) == Ok::<Uid, Seq<char>>(*self),
    {
        let bytes: [u8; 8] = (*self).into();
        let text = base58_encode(bytes.as_slice());
        proof {
            lemma_be_value_round_trip(self@);
            Uid::lemma_of_view(self@, *self);
        }
        text
    }

    /// Reads an identifier from base58 text that decodes to exactly eight
    /// bytes. Text that does not decode is refused with the decoder's own
    /// words.
    pub fn from_base58(value: &str) -> (result: Result<Uid, Error>)
        ensures
            reads_as(result, parse_base58(value@)),
    {
        Uid::from_decoded(base58_decode(value))
    }
}

} // verus!
