//! Recognises English prose with a statistical gibberish detector.

use crate::checkers::checker_result::{verdict_of, CheckResult};
use crate::checkers::checker_type::{Check, Checker, Identity, Sensitivity};
use std::marker::PhantomData;
use vstd::prelude::*;

verus! {

/// Family tag of the checker that looks for English prose.
pub struct EnglishChecker;

/// Calls `gibberish_or_not::is_gibberish` with the matching sensitivity level.
///
/// Nothing is claimed about the answer: the detector sums floating-point terms
/// in the order in which it walks a hash map, so even for one text the answer
/// is not pinned down.
#[verifier::external_body]
fn looks_like_gibberish(text: &str, sensitivity: Sensitivity) -> bool {
    let level = match sensitivity {
        Sensitivity::Low => gibberish_or_not::Sensitivity::Low,
        Sensitivity::Medium => gibberish_or_not::Sensitivity::Medium,
        Sensitivity::High => gibberish_or_not::Sensitivity::High,
    };
    gibberish_or_not::is_gibberish(text, level)
}

/// How the English checker identifies itself.
pub open spec fn english_identity() -> Identity {
    Identity {
        name: "English Checker"@,
        description: "Uses gibberish detection to check if text is meaningful English"@,
        link: "https://crates.io/crates/gibberish-or-not"@,
    }
}

/// The description attached to a verdict of the English checker.
pub open spec fn english_description(is_identified: bool) -> Seq<char> {
    if is_identified {
        "Words"@
    } else {
        Seq::empty()
    }
}

/// The verdict of the English checker on `text`, given what the detector said.
pub fn english_verdict(checker: &Checker<EnglishChecker>, text: &str, gibberish: bool) -> (r:
    CheckResult)
    ensures
        r@ == verdict_of(checker.identity(), !gibberish, text@, english_description(!gibberish)),
{
    let mut r = CheckResult::new(checker);
    r.is_identified = !gibberish;
    r.text = text.to_owned();
    if !gibberish {
        r.description = "Words".to_owned();
    }
    r
}

impl Check for Checker<EnglishChecker> {
    open spec fn sensitivity_level(&self) -> Sensitivity {
        self.sensitivity
    }

    /// The detector's answer is not pinned down, so both verdicts are possible;
    /// everything else in the verdict is fixed.
    open spec fn check_post(&self, text: Seq<char>, r: CheckResult) -> bool {
        r@ == verdict_of(self.identity(), r.is_identified, text, english_description(r.is_identified))
    }

    fn new() -> (c: Self)
        ensures
            c.identity() == english_identity(),
            c.tags@.len() == 2,
            c.tags@[0]@ == "english"@,
            c.tags@[1]@ == "nlp"@,
            c.expected_runtime == 10,
            c.popularity == 100,
            c.sensitivity == Sensitivity::Medium,
            c.regex_list@.len() == 0,
            c.enhanced_detector.is_none(),
    {
        Checker {
            name: "English Checker",
            description: "Uses gibberish detection to check if text is meaningful English",
            link: "https://crates.io/crates/gibberish-or-not",
            tags: vec!["english", "nlp"],
            expected_runtime: 10,
            popularity: 100,
            sensitivity: Sensitivity::Medium,
            regex_list: Vec::new(),
            enhanced_detector: None,
            _phantom: PhantomData,
        }
    }

    fn check(&self, text: &str) -> (r: CheckResult) {
        let gibberish = looks_like_gibberish(text, self.sensitivity);
        english_verdict(self, text, gibberish)
    }

    fn with_sensitivity(self, sensitivity: Sensitivity) -> (c: Self)
        ensures
            c == (Checker { sensitivity, ..self }),
    {
        let c = Checker { sensitivity, ..self };
        assert(c.sensitivity_level() == sensitivity);
        c
    }

    fn get_sensitivity(&self) -> (s: Sensitivity) {
        self.sensitivity
    }
}

} // verus!
