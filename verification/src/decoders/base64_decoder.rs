//! Decodes a base64 string.
//! Call `crack` on the decoder; `unencrypted_text` of the record is `Some`
//! where the text was base64.

use crate::checkers::CheckerTypes;
use crate::decoders::base32_decoder::{decode_rfc4648, rfc4648_text, Rfc4648};
use crate::decoders::crack_results::CrackResult;
use crate::decoders::interface::{
    judge_decoded, keep_decoded, kept, single, text_view, Crack, Decoder, Descriptor,
};
use std::marker::PhantomData;
use vstd::prelude::*;

verus! {

/// The Base64 decoder: `Decoder::<Base64Decoder>::new()` makes one, `crack`
/// decodes with it.
pub struct Base64Decoder;

/// Decodes `text` as base64, whatever text comes out.
fn decode_base64_no_error_handling(text: &str) -> (r: Option<String>)
    ensures
        text_view(r) == rfc4648_text(Rfc4648::Base64, text@),
{
    decode_rfc4648(Rfc4648::Base64, text)
}

/// The Base64 decoder as a mathematical value.
pub open spec fn base64_descriptor() -> Descriptor {
    Descriptor {
        name: "Base64"@,
        description: "Base64 is a group of binary-to-text encoding schemes that represent binary data (more specifically, a sequence of 8-bit bytes) in sequences of 24 bits that can be represented by four 6-bit Base64 digits."@,
        link: "https://en.wikipedia.org/wiki/Base64"@,
        tags: seq!["base64"@, "decoder"@, "base"@],
        popularity: 100,
    }
}

impl Crack for Decoder<Base64Decoder> {
    open spec fn candidates(text: Seq<char>) -> Option<Seq<Seq<char>>> {
        single(kept(rfc4648_text(Rfc4648::Base64, text), text))
    }

    open spec fn descriptor(&self) -> Descriptor {
        self@
    }

    fn new() -> (d: Decoder<Base64Decoder>)
        ensures
            d@ == base64_descriptor(),
    {
        let d = Decoder {
            name: "Base64",
            description: "Base64 is a group of binary-to-text encoding schemes that represent binary data (more specifically, a sequence of 8-bit bytes) in sequences of 24 bits that can be represented by four 6-bit Base64 digits.",
            link: "https://en.wikipedia.org/wiki/Base64",
            tags: vec!["base64", "decoder", "base"],
            popularity: 100,
            phantom: PhantomData,
        };
        assert(d.tags.deep_view() =~= base64_descriptor().tags);
        d
    }

    fn attempt(&self, text: &str) -> (r: Option<Vec<String>>) {
        let decoded_text = decode_base64_no_error_handling(text);
        keep_decoded(decoded_text, text)
    }

    /// This function does the actual decoding.
    /// The record holds the decoded text where there is one worth keeping.
    fn crack(&self, text: &str, checker: &CheckerTypes) -> (r: CrackResult) {
        let candidates = self.attempt(text);
        judge_decoded(self, text, candidates, checker)
    }

    fn get_tags(&self) -> (r: &Vec<&str>) {
        &self.tags
    }

    fn get_name(&self) -> (r: &str) {
        self.name
    }

    fn get_description(&self) -> (r: &str) {
        self.description
    }

    fn get_link(&self) -> (r: &str) {
        self.link
    }

    fn get_popularity(&self) -> (r: u32) {
        self.popularity
    }
}

} // verus!
