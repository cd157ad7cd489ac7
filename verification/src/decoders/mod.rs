//! The decoders: one module per encoding, what they have in common, and the
//! registry the search draws them from.

pub mod base32_decoder;
pub mod base64_decoder;
pub mod base65536_decoder;
pub mod base91_decoder;
pub mod brainfuck_interpreter;
pub mod caesar_decoder;
pub mod crack_results;
pub mod interface;
pub mod json;

use crate::checkers::CheckerTypes;
use crate::decoders::base32_decoder::{base32_descriptor, Base32Decoder};
use crate::decoders::base64_decoder::{base64_descriptor, Base64Decoder};
use crate::decoders::base65536_decoder::{base65536_descriptor, Base65536Decoder};
use crate::decoders::base91_decoder::{base91_descriptor, Base91Decoder};
use crate::decoders::brainfuck_interpreter::{brainfuck_descriptor, BrainfuckInterpreter};
use crate::decoders::caesar_decoder::{
    caesar_descriptor, lemma_caesar_round_trip, shifted_text, shifts_of, CaesarDecoder, SHIFTS,
};
use crate::decoders::crack_results::{CrackResult, CrackView};
use crate::decoders::base32_decoder::{
    rfc4648_decoding, rfc4648_max_len, rfc4648_text, Rfc4648,
};
use crate::decoders::base65536_decoder::{base65536_decoding, base65536_text};
use crate::decoders::base91_decoder::{base91_decoding, base91_text};
use crate::decoders::brainfuck_interpreter::{
    brainfuck_output, brainfuck_text, plausible, runnable, INSTRUCTION_LIMIT,
};
use crate::checkers::checker_result::CheckResult;
use crate::decoders::interface::{
    crack_post, holds_accepted, holds_all, kept, record_candidates, single, string_success,
    texts_view, Crack, Decoder, Descriptor,
};
use crate::text::strict_decoding;
use vstd::utf8::{encode_utf8, encode_utf8_decode_utf8, encode_utf8_valid_utf8, valid_utf8};
use vstd::prelude::*;

verus! {

/// The families of decoder that the registry holds.
#[derive(Debug, Clone, Copy, PartialEq, Eq, Structural)]
pub enum Family {
    Base64,
    Base32,
    Brainfuck,
    Base91,
    Base65536,
    Caesar,
}

/// The decoder of a family as a mathematical value.
pub open spec fn family_descriptor(family: Family) -> Descriptor {
    match family {
        Family::Base64 => base64_descriptor(),
        Family::Base32 => base32_descriptor(),
        Family::Brainfuck => brainfuck_descriptor(),
        Family::Base91 => base91_descriptor(),
        Family::Base65536 => base65536_descriptor(),
        Family::Caesar => caesar_descriptor(),
    }
}

/// The candidates that the decoder of a family yields for `text`, if any.
pub open spec fn family_candidates(family: Family, text: Seq<char>) -> Option<Seq<Seq<char>>> {
    match family {
        Family::Base64 => Decoder::<Base64Decoder>::candidates(text),
        Family::Base32 => Decoder::<Base32Decoder>::candidates(text),
        Family::Brainfuck => Decoder::<BrainfuckInterpreter>::candidates(text),
        Family::Base91 => Decoder::<Base91Decoder>::candidates(text),
        Family::Base65536 => Decoder::<Base65536Decoder>::candidates(text),
        Family::Caesar => Decoder::<CaesarDecoder>::candidates(text),
    }
}

/// The record `v` is what the decoder of `family` writes for its input: it
/// names that decoder and holds the candidates that the decoder yields.
pub open spec fn produced_by(family: Family, v: CrackView) -> bool {
    &&& v.decoder == family_descriptor(family).name
    &&& v.unencrypted_text.is_some()
    &&& v.unencrypted_text == family_candidates(family, v.encrypted_text)
}

/// A decoder of the registry: one of the families, picked at runtime.
pub enum DecoderTypes {
    Base64(Decoder<Base64Decoder>),
    Base32(Decoder<Base32Decoder>),
    Brainfuck(Decoder<BrainfuckInterpreter>),
    Base91(Decoder<Base91Decoder>),
    Base65536(Decoder<Base65536Decoder>),
    Caesar(Decoder<CaesarDecoder>),
}

impl DecoderTypes {
    /// The family of the decoder.
    pub open spec fn family(&self) -> Family {
        match self {
            DecoderTypes::Base64(_) => Family::Base64,
            DecoderTypes::Base32(_) => Family::Base32,
            DecoderTypes::Brainfuck(_) => Family::Brainfuck,
            DecoderTypes::Base91(_) => Family::Base91,
            DecoderTypes::Base65536(_) => Family::Base65536,
            DecoderTypes::Caesar(_) => Family::Caesar,
        }
    }

    /// The decoder as a mathematical value.
    pub open spec fn descriptor(&self) -> Descriptor {
        match self {
            DecoderTypes::Base64(d) => d@,
            DecoderTypes::Base32(d) => d@,
            DecoderTypes::Brainfuck(d) => d@,
            DecoderTypes::Base91(d) => d@,
            DecoderTypes::Base65536(d) => d@,
            DecoderTypes::Caesar(d) => d@,
        }
    }

    /// The decoder is described as its family is.
    pub open spec fn wf(&self) -> bool {
        self.descriptor() == family_descriptor(self.family())
    }

    /// The decoder of `family`, as `new` of that family makes it.
    pub fn of(family: Family) -> (d: DecoderTypes)
        ensures
            d.family() == family,
            d.wf(),
    {
        match family {
            Family::Base64 => DecoderTypes::Base64(Decoder::<Base64Decoder>::new()),
            Family::Base32 => DecoderTypes::Base32(Decoder::<Base32Decoder>::new()),
            Family::Brainfuck => DecoderTypes::Brainfuck(Decoder::<BrainfuckInterpreter>::new()),
            Family::Base91 => DecoderTypes::Base91(Decoder::<Base91Decoder>::new()),
            Family::Base65536 => DecoderTypes::Base65536(Decoder::<Base65536Decoder>::new()),
            Family::Caesar => DecoderTypes::Caesar(Decoder::<CaesarDecoder>::new()),
        }
    }

    /// Decodes `text`, without judging what comes out.
    pub fn attempt(&self, text: &str) -> (r: Option<Vec<String>>)
        ensures
            texts_view(r) == family_candidates(self.family(), text@),
            r matches Some(list) ==> list@.len() > 0,
    {
        match self {
            DecoderTypes::Base64(d) => d.attempt(text),
            DecoderTypes::Base32(d) => d.attempt(text),
            DecoderTypes::Brainfuck(d) => d.attempt(text),
            DecoderTypes::Base91(d) => d.attempt(text),
            DecoderTypes::Base65536(d) => d.attempt(text),
            DecoderTypes::Caesar(d) => d.attempt(text),
        }
    }

    /// Decodes `text` and has `checker` judge what came out.
    pub fn crack(&self, text: &str, checker: &CheckerTypes) -> (r: CrackResult)
        ensures
            crack_post(
                self.descriptor(),
                family_candidates(self.family(), text@),
                text@,
                *checker,
                r,
            ),
    {
        match self {
            DecoderTypes::Base64(d) => d.crack(text, checker),
            DecoderTypes::Base32(d) => d.crack(text, checker),
            DecoderTypes::Brainfuck(d) => d.crack(text, checker),
            DecoderTypes::Base91(d) => d.crack(text, checker),
            DecoderTypes::Base65536(d) => d.crack(text, checker),
            DecoderTypes::Caesar(d) => d.crack(text, checker),
        }
    }

    /// The record of an attempt of this decoder on `text` that yielded
    /// `candidates`, with the verdict `verdict` of a checker on one of them.
    pub fn record(&self, text: &str, candidates: Vec<String>, verdict: &CheckResult) -> (r:
        CrackResult)
        ensures
            r@ == (CrackView {
                success: verdict.is_identified,
                encrypted_text: text@,
                unencrypted_text: Some(candidates.deep_view()),
                decoder: self.descriptor().name,
                checker_name: verdict.checker_name@,
                checker_description: verdict.checker_description@,
                key: None,
                description: self.descriptor().description,
                link: self.descriptor().link,
            }),
    {
        match self {
            DecoderTypes::Base64(d) => record_candidates(d, text, candidates, verdict),
            DecoderTypes::Base32(d) => record_candidates(d, text, candidates, verdict),
            DecoderTypes::Brainfuck(d) => record_candidates(d, text, candidates, verdict),
            DecoderTypes::Base91(d) => record_candidates(d, text, candidates, verdict),
            DecoderTypes::Base65536(d) => record_candidates(d, text, candidates, verdict),
            DecoderTypes::Caesar(d) => record_candidates(d, text, candidates, verdict),
        }
    }

    /// The family of the decoder.
    pub fn get_family(&self) -> (f: Family)
        ensures
            f == self.family(),
    {
        match self {
            DecoderTypes::Base64(_) => Family::Base64,
            DecoderTypes::Base32(_) => Family::Base32,
            DecoderTypes::Brainfuck(_) => Family::Brainfuck,
            DecoderTypes::Base91(_) => Family::Base91,
            DecoderTypes::Base65536(_) => Family::Base65536,
            DecoderTypes::Caesar(_) => Family::Caesar,
        }
    }

    /// Gets the name of the decoder.
    pub fn get_name(&self) -> (r: &'static str)
        ensures
            r@ == self.descriptor().name,
    {
        match self {
            DecoderTypes::Base64(d) => d.name,
            DecoderTypes::Base32(d) => d.name,
            DecoderTypes::Brainfuck(d) => d.name,
            DecoderTypes::Base91(d) => d.name,
            DecoderTypes::Base65536(d) => d.name,
            DecoderTypes::Caesar(d) => d.name,
        }
    }

    /// Gets the description of the decoder.
    pub fn get_description(&self) -> (r: &'static str)
        ensures
            r@ == self.descriptor().description,
    {
        match self {
            DecoderTypes::Base64(d) => d.description,
            DecoderTypes::Base32(d) => d.description,
            DecoderTypes::Brainfuck(d) => d.description,
            DecoderTypes::Base91(d) => d.description,
            DecoderTypes::Base65536(d) => d.description,
            DecoderTypes::Caesar(d) => d.description,
        }
    }

    /// Gets the link of the decoder.
    pub fn get_link(&self) -> (r: &'static str)
        ensures
            r@ == self.descriptor().link,
    {
        match self {
            DecoderTypes::Base64(d) => d.link,
            DecoderTypes::Base32(d) => d.link,
            DecoderTypes::Brainfuck(d) => d.link,
            DecoderTypes::Base91(d) => d.link,
            DecoderTypes::Base65536(d) => d.link,
            DecoderTypes::Caesar(d) => d.link,
        }
    }

    /// Gets the tags of the decoder.
    pub fn get_tags(&self) -> (r: &Vec<&'static str>)
        ensures
            r.deep_view() == self.descriptor().tags,
    {
        match self {
            DecoderTypes::Base64(d) => &d.tags,
            DecoderTypes::Base32(d) => &d.tags,
            DecoderTypes::Brainfuck(d) => &d.tags,
            DecoderTypes::Base91(d) => &d.tags,
            DecoderTypes::Base65536(d) => &d.tags,
            DecoderTypes::Caesar(d) => &d.tags,
        }
    }

    /// Gets the popularity of the decoder, in hundredths.
    pub fn get_popularity(&self) -> (r: u32)
        ensures
            r as nat == self.descriptor().popularity,
    {
        match self {
            DecoderTypes::Base64(d) => d.popularity,
            DecoderTypes::Base32(d) => d.popularity,
            DecoderTypes::Brainfuck(d) => d.popularity,
            DecoderTypes::Base91(d) => d.popularity,
            DecoderTypes::Base65536(d) => d.popularity,
            DecoderTypes::Caesar(d) => d.popularity,
        }
    }
}

/// The families of the default registry in the order in which a node is
/// expanded: most popular first.
pub open spec fn registry_families() -> Seq<Family> {
    seq![Family::Base64, Family::Base32, Family::Brainfuck, Family::Base91, Family::Base65536]
}

/// The `registry` is the default registry: one decoder of each of its
/// families, in the order of [`registry_families`].
pub open spec fn is_registry(registry: Seq<DecoderTypes>) -> bool {
    &&& registry.len() == registry_families().len()
    &&& forall|i: int|
        0 <= i < registry.len() ==> (#[trigger] registry[i]).wf() && registry[i].family()
            == registry_families()[i]
}

/// The default registry: the decoders that stand for an encoding and yield at
/// most one candidate, the most popular first. The Caesar decoder, which
/// yields a candidate for every shift, is applied only where the caller puts
/// it on the list of a search.
pub fn registry() -> (all: Vec<DecoderTypes>)
    ensures
        is_registry(all@),
        forall|i: int, j: int|
            0 <= i <= j < all@.len() ==> all@[i].descriptor().popularity
                >= all@[j].descriptor().popularity,
{
    let mut all: Vec<DecoderTypes> = Vec::new();
    all.push(DecoderTypes::of(Family::Base64));
    all.push(DecoderTypes::of(Family::Base32));
    all.push(DecoderTypes::of(Family::Brainfuck));
    all.push(DecoderTypes::of(Family::Base91));
    all.push(DecoderTypes::of(Family::Base65536));
    all
}

/// The bytes that the outside decoder of `family` makes of `text`, where it
/// makes any. The Caesar decoder works on characters and has none.
pub open spec fn decoded_bytes(family: Family, text: Seq<char>) -> Option<Seq<u8>> {
    match family {
        Family::Base64 => if encode_utf8(text).len() <= rfc4648_max_len() {
            rfc4648_decoding(Rfc4648::Base64, encode_utf8(text))
        } else {
            None
        },
        Family::Base32 => if encode_utf8(text).len() <= rfc4648_max_len() {
            rfc4648_decoding(Rfc4648::Base32, encode_utf8(text))
        } else {
            None
        },
        Family::Brainfuck => if plausible(text) && runnable(text) {
            brainfuck_output(text, INSTRUCTION_LIMIT as nat)
        } else {
            None
        },
        Family::Base91 => Some(base91_decoding(encode_utf8(text))),
        Family::Base65536 => base65536_decoding(text),
        Family::Caesar => None,
    }
}

/// The text that a decoder which works on bytes makes of `text`: the decoded
/// bytes where they are well-formed UTF-8, nothing where they are not.
pub open spec fn decoded_text(family: Family, text: Seq<char>) -> Option<Seq<char>> {
    match decoded_bytes(family, text) {
        Some(bytes) => strict_decoding(bytes),
        None => None,
    }
}

/// No noise: whatever a decoder yields for a text is worth keeping, each
/// candidate of it, and there is at least one. The empty text yields nothing.
/// A decoder that works on bytes yields the text of those bytes and no
/// other, and nothing where the bytes are no well-formed UTF-8.
pub proof fn lemma_candidates_are_no_noise(family: Family, text: Seq<char>)
    ensures
        text.len() == 0 ==> family_candidates(family, text).is_none(),
        family_candidates(family, text) matches Some(list) ==> {
            &&& list.len() >= 1
            &&& forall|i: int| 0 <= i < list.len() ==> string_success(#[trigger] list[i], text)
        },
        family != Family::Caesar ==> family_candidates(family, text) == single(
            kept(decoded_text(family, text), text),
        ),
        family != Family::Caesar && (decoded_bytes(family, text) matches Some(bytes)
            && !valid_utf8(bytes)) ==> family_candidates(family, text).is_none(),
{
    if family == Family::Caesar && text.len() == 0 {
        let first = shifts_of(text, SHIFTS as nat)[0];
        assert(first.len() == 0);
        assert(!string_success(first, text));
    }
}

/// No noise in a record: the candidates that the record of a crack holds are
/// worth keeping, each of them, and a record on the empty text, or on a text
/// whose decoded bytes are no well-formed UTF-8, holds none.
pub proof fn lemma_record_holds_no_noise(
    family: Family,
    text: Seq<char>,
    checker: CheckerTypes,
    r: CrackResult,
)
    requires
        crack_post(family_descriptor(family), family_candidates(family, text), text, checker, r),
    ensures
        text.len() == 0 ==> r@.unencrypted_text.is_none(),
        r@.unencrypted_text matches Some(held) ==> {
            &&& held.len() >= 1
            &&& forall|i: int| 0 <= i < held.len() ==> string_success(#[trigger] held[i], text)
        },
        family != Family::Caesar && (decoded_bytes(family, text) matches Some(bytes)
            && !valid_utf8(bytes)) ==> r@.unencrypted_text.is_none(),
{
    lemma_candidates_are_no_noise(family, text);
    if let Some(list) = family_candidates(family, text) {
        if holds_all(list, checker, r) {
        } else {
            assert(holds_accepted(list, checker, r));
        }
    }
}

/// `encoded` is an encoding of `plaintext` for the decoder of `family`: a
/// text that the outside decoder maps back to the bytes of `plaintext`, or,
/// for the Caesar decoder, `plaintext` shifted.
pub open spec fn decodes_to(family: Family, encoded: Seq<char>, plaintext: Seq<char>) -> bool {
    match family {
        Family::Caesar => exists|shift: nat|
            0 < shift < 26 && encoded == #[trigger] shifted_text(plaintext, shift),
        _ => encoded.len() > 0 && decoded_bytes(family, encoded) == Some(encode_utf8(plaintext)),
    }
}

/// Round trip of the decoding alone: where the outside decoder of a family
/// that works on bytes maps `encoded` back to the bytes of `plaintext`, the
/// text that the family decodes from `encoded` is `plaintext`, whatever it
/// holds: nothing was lost on the way from bytes to text.
pub proof fn lemma_decoding_round_trip(family: Family, encoded: Seq<char>, plaintext: Seq<char>)
    requires
        family != Family::Caesar,
        decoded_bytes(family, encoded) == Some(encode_utf8(plaintext)),
    ensures
        decoded_text(family, encoded) == Some(plaintext),
        match family {
            Family::Base64 => rfc4648_text(Rfc4648::Base64, encoded) == Some(plaintext),
            Family::Base32 => rfc4648_text(Rfc4648::Base32, encoded) == Some(plaintext),
            Family::Brainfuck => brainfuck_text(encoded) == Some(plaintext),
            Family::Base91 => base91_text(encoded) == Some(plaintext),
            Family::Base65536 => base65536_text(encoded) == Some(plaintext),
            Family::Caesar => true,
        },
{
    encode_utf8_valid_utf8(plaintext);
    encode_utf8_decode_utf8(plaintext);
}

/// Round trip: for every family, every plaintext that is worth keeping and
/// every encoding of it, an attempt of that family on the encoding yields the
/// plaintext among its candidates. The record of a crack on it holds the
/// plaintext too, unless it is a success with another candidate, one that the
/// checker has identified before it came to the plaintext.
pub proof fn lemma_round_trip(
    family: Family,
    encoded: Seq<char>,
    plaintext: Seq<char>,
    checker: CheckerTypes,
    r: CrackResult,
)
    requires
        decodes_to(family, encoded, plaintext),
        string_success(plaintext, encoded),
        crack_post(
            family_descriptor(family),
            family_candidates(family, encoded),
            encoded,
            checker,
            r,
        ),
    ensures
        family != Family::Caesar ==> family_candidates(family, encoded) == Some(seq![plaintext]),
        family_candidates(family, encoded) matches Some(list) && list.contains(plaintext),
        r@.unencrypted_text matches Some(held) && (held.contains(plaintext) || r.success),
{
    if family == Family::Caesar {
        let shift = choose|shift: nat|
            0 < shift < 26 && encoded == #[trigger] shifted_text(plaintext, shift);
        lemma_caesar_round_trip(plaintext, shift);
    } else {
        encode_utf8_valid_utf8(plaintext);
        encode_utf8_decode_utf8(plaintext);
        assert(family_candidates(family, encoded) == Some(seq![plaintext]));
        assert(seq![plaintext][0] == plaintext);
        assert(seq![plaintext].last() == plaintext);
    }
    let list = family_candidates(family, encoded).unwrap();
    if holds_all(list, checker, r) {
    } else {
        assert(holds_accepted(list, checker, r));
        if family != Family::Caesar {
            assert(list.len() == 1);
        }
    }
}

} // verus!
