//! Decodes a base91 string.
//! Call `crack` on the decoder; `unencrypted_text` of the record is `Some`
//! where something worth keeping came out.

use crate::checkers::CheckerTypes;
use crate::decoders::crack_results::CrackResult;
use crate::decoders::interface::{
    judge_decoded, keep_decoded, kept, single, text_view, Crack, Decoder, Descriptor,
};
use crate::text::{strict_decoding, strict_text};
use std::marker::PhantomData;
use vstd::prelude::*;
use vstd::string::StringSliceAdditionalSpecFns;
use vstd::utf8::encode_utf8;

verus! {

/// The Base91 decoder: `Decoder::<Base91Decoder>::new()` makes one, `crack`
/// decodes with it.
pub struct Base91Decoder;

/// The bytes that the basE91 text `input` stands for. Bytes outside the
/// alphabet are skipped, so every input decodes to something.
pub uninterp spec fn base91_decoding(input: Seq<u8>) -> Seq<u8>;

/// Calls `base91::slice_decode`, which runs the decoding iterator over the
/// input once; it cannot fail and depends on nothing but the input.
#[verifier::external_body]
fn base91_decode(input: &[u8]) -> (r: Vec<u8>)
    ensures
        r@ == base91_decoding(input@),
{
    base91::slice_decode(input)
}

/// The text that `text` decodes to, before anything is said about whether it
/// is worth keeping. Bytes that are no UTF-8 are refused: they would only be
/// noise.
pub open spec fn base91_text(text: Seq<char>) -> Option<Seq<char>> {
    strict_decoding(base91_decoding(encode_utf8(text)))
}

/// Decodes `text` as basE91, whatever text comes out.
fn decode_base91_no_error_handling(text: &str) -> (r: Option<String>)
    ensures
        text_view(r) == base91_text(text@),
{
    let decoded_text = base91_decode(text.as_bytes());
    strict_text(decoded_text)
}

/// The Base91 decoder as a mathematical value.
pub open spec fn base91_descriptor() -> Descriptor {
    Descriptor {
        name: "Base91"@,
        description: "basE91 is an advanced method for encoding binary data as ASCII characters. It is similar to UUencode or base64, but is more efficient."@,
        link: "https://base91.sourceforge.net/"@,
        tags: seq!["base91"@, "decoder"@, "base"@],
        popularity: 30,
    }
}

impl Crack for Decoder<Base91Decoder> {
    open spec fn candidates(text: Seq<char>) -> Option<Seq<Seq<char>>> {
        single(kept(base91_text(text), text))
    }

    open spec fn descriptor(&self) -> Descriptor {
        self@
    }

    fn new() -> (d: Decoder<Base91Decoder>)
        ensures
            d@ == base91_descriptor(),
    {
        let d = Decoder {
            name: "Base91",
            description: "basE91 is an advanced method for encoding binary data as ASCII characters. It is similar to UUencode or base64, but is more efficient.",
            link: "https://base91.sourceforge.net/",
            tags: vec!["base91", "decoder", "base"],
            popularity: 30,
            phantom: PhantomData,
        };
        assert(d.tags.deep_view() =~= base91_descriptor().tags);
        d
    }

    fn attempt(&self, text: &str) -> (r: Option<Vec<String>>) {
        let decoded_text = decode_base91_no_error_handling(text);
        keep_decoded(decoded_text, text)
    }

    /// This function does the actual decoding.
    /// The record holds the decoded text where there is one worth keeping.
    fn crack(&self, text: &str, checker: &CheckerTypes) -> (r: CrackResult) {
        let candidates = self.attempt(text);
        judge_decoded(self, text, candidates, checker)
    }

    fn get_tags(&self) -> (r: &Vec<&str>) {
        &self.tags
    }

    fn get_name(&self) -> (r: &str) {
        self.name
    }

    fn get_description(&self) -> (r: &str) {
        self.description
    }

    fn get_link(&self) -> (r: &str) {
        self.link
    }

    fn get_popularity(&self) -> (r: u32) {
        self.popularity
    }
}

} // verus!
