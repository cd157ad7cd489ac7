//! Decodes a base32 string.
//! Call `crack` on the decoder; `unencrypted_text` of the record is `Some`
//! where the text was base32.

use crate::checkers::CheckerTypes;
use crate::decoders::crack_results::CrackResult;
use crate::decoders::interface::{
    judge_decoded, keep_decoded, kept, single, text_view, Crack, Decoder, Descriptor,
};
use crate::text::{strict_decoding, strict_text};
use std::marker::PhantomData;
use vstd::prelude::*;
use vstd::string::StringSliceAdditionalSpecFns;
use vstd::utf8::encode_utf8;

verus! {

/// The Base32 decoder: `Decoder::<Base32Decoder>::new()` makes one, `crack`
/// decodes with it.
pub struct Base32Decoder;

/// The alphabets of RFC 4648 that the decoders use.
#[derive(Debug, Clone, Copy, PartialEq, Eq, Structural)]
pub enum Rfc4648 {
    /// Padded base32, upper case
    Base32,
    /// Padded base64
    Base64,
}

/// The bytes that `input` stands for in the given alphabet; `None` where
/// `input` is not a canonical encoding in that alphabet.
pub uninterp spec fn rfc4648_decoding(alphabet: Rfc4648, input: Seq<u8>) -> Option<Seq<u8>>;

/// The longest input the outside decoder takes without complaint.
pub open spec fn rfc4648_max_len() -> nat {
    (usize::MAX / 8) as nat
}

/// Calls `data_encoding::Encoding::decode` on `BASE32` or `BASE64`. The crate
/// documents the function as deterministic and free of side effects; an error
/// of any kind becomes `None`. Inputs longer than an eighth of the address
/// space make it panic and are left out.
#[verifier::external_body]
pub(crate) fn rfc4648_decode(alphabet: Rfc4648, input: &[u8]) -> (r: Option<Vec<u8>>)
    requires
        input@.len() <= rfc4648_max_len(),
    ensures
        r.is_some() == rfc4648_decoding(alphabet, input@).is_some(),
        r.is_some() ==> r.unwrap()@ == rfc4648_decoding(alphabet, input@).unwrap(),
{
    match alphabet {
        Rfc4648::Base32 => data_encoding::BASE32.decode(input).ok(),
        Rfc4648::Base64 => data_encoding::BASE64.decode(input).ok(),
    }
}

/// The text that `text` decodes to in the given alphabet, before anything is
/// said about whether it is worth keeping. Bytes that are no UTF-8 are
/// refused: they would only be noise.
pub open spec fn rfc4648_text(alphabet: Rfc4648, text: Seq<char>) -> Option<Seq<char>> {
    let input = encode_utf8(text);
    if input.len() > rfc4648_max_len() {
        None
    } else {
        match rfc4648_decoding(alphabet, input) {
            Some(bytes) => strict_decoding(bytes),
            None => None,
        }
    }
}

/// Decodes `text` in the given alphabet, see [`rfc4648_text`].
pub(crate) fn decode_rfc4648(alphabet: Rfc4648, text: &str) -> (r: Option<String>)
    ensures
        text_view(r) == rfc4648_text(alphabet, text@),
{
    let input = text.as_bytes();
    if input.len() > usize::MAX / 8 {
        return None;
    }
    match rfc4648_decode(alphabet, input) {
        Some(bytes) => strict_text(bytes),
        None => None,
    }
}

/// Decodes `text` as base32, whatever text comes out.
fn decode_base32_no_error_handling(text: &str) -> (r: Option<String>)
    ensures
        text_view(r) == rfc4648_text(Rfc4648::Base32, text@),
{
    decode_rfc4648(Rfc4648::Base32, text)
}

/// The Base32 decoder as a mathematical value.
pub open spec fn base32_descriptor() -> Descriptor {
    Descriptor {
        name: "base32"@,
        description: "Base32 is a group of binary-to-text encoding schemes that represent binary data (more specifically, a sequence of 8-bit bytes) in an ASCII string format by translating the data into a radix-32 representation."@,
        link: "https://en.wikipedia.org/wiki/Base32"@,
        tags: seq!["base32"@, "decoder"@, "base"@],
        popularity: 80,
    }
}

impl Crack for Decoder<Base32Decoder> {
    open spec fn candidates(text: Seq<char>) -> Option<Seq<Seq<char>>> {
        single(kept(rfc4648_text(Rfc4648::Base32, text), text))
    }

    open spec fn descriptor(&self) -> Descriptor {
        self@
    }

    fn new() -> (d: Decoder<Base32Decoder>)
        ensures
            d@ == base32_descriptor(),
    {
        let d = Decoder {
            name: "base32",
            description: "Base32 is a group of binary-to-text encoding schemes that represent binary data (more specifically, a sequence of 8-bit bytes) in an ASCII string format by translating the data into a radix-32 representation.",
            link: "https://en.wikipedia.org/wiki/Base32",
            tags: vec!["base32", "decoder", "base"],
            popularity: 80,
            phantom: PhantomData,
        };
        assert(d.tags.deep_view() =~= base32_descriptor().tags);
        d
    }

    fn attempt(&self, text: &str) -> (r: Option<Vec<String>>) {
        let decoded_text = decode_base32_no_error_handling(text);
        keep_decoded(decoded_text, text)
    }

    /// This function does the actual decoding.
    /// The record holds the decoded text where there is one worth keeping.
    fn crack(&self, text: &str, checker: &CheckerTypes) -> (r: CrackResult) {
        let candidates = self.attempt(text);
        judge_decoded(self, text, candidates, checker)
    }

    fn get_tags(&self) -> (r: &Vec<&str>) {
        &self.tags
    }

    fn get_name(&self) -> (r: &str) {
        self.name
    }

    fn get_description(&self) -> (r: &str) {
        self.description
    }

    fn get_link(&self) -> (r: &str) {
        self.link
    }

    fn get_popularity(&self) -> (r: u32) {
        self.popularity
    }
}

} // verus!
