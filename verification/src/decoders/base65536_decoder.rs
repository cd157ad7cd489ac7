//! Decodes a base65536 string.
//! Call `crack` on the decoder; `unencrypted_text` of the record is `Some`
//! where the text was base65536.

use crate::checkers::CheckerTypes;
use crate::decoders::crack_results::CrackResult;
use crate::decoders::interface::{
    judge_decoded, keep_decoded, kept, single, text_view, Crack, Decoder, Descriptor,
};
use crate::text::{strict_decoding, strict_text};
use std::marker::PhantomData;
use vstd::prelude::*;

verus! {

/// The Base65536 decoder: `Decoder::<Base65536Decoder>::new()` makes one,
/// `crack` decodes with it.
pub struct Base65536Decoder;

/// The bytes that the base65536 text `input` stands for; `None` where it holds
/// a character outside the base65536 blocks or goes on after its final byte.
pub uninterp spec fn base65536_decoding(input: Seq<char>) -> Option<Seq<u8>>;

/// Calls `base65536::decode` without ignoring garbage. The function walks the
/// characters of its input once and depends on nothing else; an error of
/// either kind becomes `None`.
#[verifier::external_body]
fn base65536_decode(input: &str) -> (r: Option<Vec<u8>>)
    ensures
        r.is_some() == base65536_decoding(input@).is_some(),
        r.is_some() ==> r.unwrap()@ == base65536_decoding(input@).unwrap(),
{
    base65536::decode(input, false).ok()
}

/// The text that `text` decodes to, before anything is said about whether it
/// is worth keeping. Bytes that are no UTF-8 are refused: they would only be
/// noise.
pub open spec fn base65536_text(text: Seq<char>) -> Option<Seq<char>> {
    match base65536_decoding(text) {
        Some(bytes) => strict_decoding(bytes),
        None => None,
    }
}

/// Decodes `text` as base65536, whatever text comes out.
fn decode_base65536_no_error_handling(text: &str) -> (r: Option<String>)
    ensures
        text_view(r) == base65536_text(text@),
{
    match base65536_decode(text) {
        Some(decoded_text) => strict_text(decoded_text),
        None => None,
    }
}

/// The Base65536 decoder as a mathematical value.
pub open spec fn base65536_descriptor() -> Descriptor {
    Descriptor {
        name: "Base65536"@,
        description: "Base65536 is a binary encoding optimised for UTF-32-encoded text. Base65536 uses only \"safe\" Unicode code points - no unassigned code points, no whitespace, no control characters, etc."@,
        link: "https://github.com/qntm/base65536"@,
        tags: seq!["base65536"@, "decoder"@, "base"@],
        popularity: 10,
    }
}

impl Crack for Decoder<Base65536Decoder> {
    open spec fn candidates(text: Seq<char>) -> Option<Seq<Seq<char>>> {
        single(kept(base65536_text(text), text))
    }

    open spec fn descriptor(&self) -> Descriptor {
        self@
    }

    fn new() -> (d: Decoder<Base65536Decoder>)
        ensures
            d@ == base65536_descriptor(),
    {
        let d = Decoder {
            name: "Base65536",
            description: "Base65536 is a binary encoding optimised for UTF-32-encoded text. Base65536 uses only \"safe\" Unicode code points - no unassigned code points, no whitespace, no control characters, etc.",
            link: "https://github.com/qntm/base65536",
            tags: vec!["base65536", "decoder", "base"],
            popularity: 10,
            phantom: PhantomData,
        };
        assert(d.tags.deep_view() =~= base65536_descriptor().tags);
        d
    }

    fn attempt(&self, text: &str) -> (r: Option<Vec<String>>) {
        let decoded_text = decode_base65536_no_error_handling(text);
        keep_decoded(decoded_text, text)
    }

    /// This function does the actual decoding.
    /// The record holds the decoded text where there is one worth keeping.
    fn crack(&self, text: &str, checker: &CheckerTypes) -> (r: CrackResult) {
        let candidates = self.attempt(text);
        judge_decoded(self, text, candidates, checker)
    }

    fn get_tags(&self) -> (r: &Vec<&str>) {
        &self.tags
    }

    fn get_name(&self) -> (r: &str) {
        self.name
    }

    fn get_description(&self) -> (r: &str) {
        self.description
    }

    fn get_link(&self) -> (r: &str) {
        self.link
    }

    fn get_popularity(&self) -> (r: u32) {
        self.popularity
    }
}

} // verus!
