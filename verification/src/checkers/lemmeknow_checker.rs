//! Recognises well-known formats (hashes, tokens, addresses, ...) with the
//! pattern catalogue of `lemmeknow`.

use crate::checkers::checker_result::{verdict_of, CheckResult, Verdict};
use crate::checkers::checker_type::{Check, Checker, Identity, Sensitivity};
use std::marker::PhantomData;
use vstd::prelude::*;

verus! {

/// Family tag of the checker that identifies known formats.
pub struct LemmeKnow;

/// The first catalogue entry that matches `text`, if any entry matches: the
/// whole text where `in_part` is false, some part of it where `in_part` is
/// true. An entry is given by its name and by the bit pattern of its rarity, a
/// number between 0 and 1 in single precision.
pub uninterp spec fn catalog_match(text: Seq<char>, in_part: bool) -> Option<(Seq<char>, u32)>;

/// Calls `lemmeknow::Identifier::first_match` on an identifier with default
/// settings (every entry considered, no file lookup), with boundaryless
/// patterns where `in_part` is true, and keeps the name and the rarity of the
/// entry found. The catalogue is fixed when the crate is built, so the answer
/// depends on the arguments alone.
#[verifier::external_body]
pub(crate) fn catalog_first_match(text: &str, in_part: bool) -> (r: Option<(String, u32)>)
    ensures
        r.is_some() == catalog_match(text@, in_part).is_some(),
        r.is_some() ==> r.unwrap().0@ == catalog_match(text@, in_part).unwrap().0,
        r.is_some() ==> r.unwrap().1 == catalog_match(text@, in_part).unwrap().1,
{
    let identifier = lemmeknow::Identifier::default().boundaryless(in_part);
    identifier.first_match(text).map(|found| (found.data.name.to_string(), found.data.rarity.to_bits()))
}

/// The bit pattern of one tenth in single precision. Among numbers that are
/// not negative, the greater number has the greater bit pattern.
pub const MIN_RARITY_BITS: u32 = 0x3DCC_CCCD;

/// The entry is rare enough to identify a text: its rarity is at least one
/// tenth. Entries that match almost anything lie below.
pub open spec fn rare_enough(rarity_bits: u32) -> bool {
    MIN_RARITY_BITS <= rarity_bits < 0x8000_0000
}

/// The name of the catalogue entry that identifies `text`: the first entry
/// that matches, provided that it is rare enough.
pub open spec fn identified_format(text: Seq<char>, in_part: bool) -> Option<Seq<char>> {
    match catalog_match(text, in_part) {
        Some((name, rarity_bits)) => if rare_enough(rarity_bits) {
            Some(name)
        } else {
            None
        },
        None => None,
    }
}

/// Looks `text` up in the catalogue, see [`identified_format`].
pub fn identify_format(text: &str, in_part: bool) -> (r: Option<String>)
    ensures
        r.is_some() == identified_format(text@, in_part).is_some(),
        r.is_some() ==> r.unwrap()@ == identified_format(text@, in_part).unwrap(),
{
    match catalog_first_match(text, in_part) {
        Some((name, rarity_bits)) => {
            if MIN_RARITY_BITS <= rarity_bits && rarity_bits < 0x8000_0000 {
                Some(name)
            } else {
                None
            }
        },
        None => None,
    }
}

/// How the format checker identifies itself.
pub open spec fn lemmeknow_identity() -> Identity {
    Identity {
        name: "LemmeKnow Checker"@,
        description: "Uses LemmeKnow to check for regex matches"@,
        link: "https://swanandx.github.io/lemmeknow-frontend/"@,
    }
}

/// The verdict of the format checker on `text`: identified exactly when the
/// catalogue identifies it, and the name of the entry is then the
/// description.
pub open spec fn lemmeknow_verdict(checker: Identity, text: Seq<char>) -> Verdict {
    match identified_format(text, false) {
        Some(name) => verdict_of(checker, true, text, name),
        None => verdict_of(checker, false, text, Seq::empty()),
    }
}

impl Check for Checker<LemmeKnow> {
    open spec fn sensitivity_level(&self) -> Sensitivity {
        self.sensitivity
    }

    open spec fn check_post(&self, text: Seq<char>, r: CheckResult) -> bool {
        r@ == lemmeknow_verdict(self.identity(), text)
    }

    fn new() -> (c: Self)
        ensures
            c.identity() == lemmeknow_identity(),
            c.tags@.len() == 2,
            c.tags@[0]@ == "lemmeknow"@,
            c.tags@[1]@ == "regex"@,
            c.expected_runtime == 10,
            c.popularity == 100,
            c.sensitivity == Sensitivity::Medium,
            c.regex_list@.len() == 0,
            c.enhanced_detector.is_none(),
    {
        Checker {
            name: "LemmeKnow Checker",
            description: "Uses LemmeKnow to check for regex matches",
            link: "https://swanandx.github.io/lemmeknow-frontend/",
            tags: vec!["lemmeknow", "regex"],
            expected_runtime: 10,
            popularity: 100,
            sensitivity: Sensitivity::Medium,
            regex_list: Vec::new(),
            enhanced_detector: None,
            _phantom: PhantomData,
        }
    }

    fn check(&self, text: &str) -> (r: CheckResult) {
        let mut r = CheckResult::new(self);
        r.text = text.to_owned();
        match identify_format(text, false) {
            Some(name) => {
                r.is_identified = true;
                r.description = name;
            },
            None => {},
        }
        r
    }

    fn with_sensitivity(self, sensitivity: Sensitivity) -> (c: Self)
        ensures
            c == (Checker { sensitivity, ..self }),
    {
        let c = Checker { sensitivity, ..self };
        assert(c.sensitivity_level() == sensitivity);
        c
    }

    fn get_sensitivity(&self) -> (s: Sensitivity) {
        self.sensitivity
    }
}

} // verus!
