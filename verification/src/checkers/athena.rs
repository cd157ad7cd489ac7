//! Athena, the composite checker: cheap gates first, the statistical detector
//! last, and the first positive verdict wins.

use crate::checkers::checker_result::{verdict_of, CheckResult};
use crate::checkers::checker_type::{Check, Checker, Identity, Sensitivity};
use crate::checkers::english::{english_description, english_identity, EnglishChecker};
use crate::checkers::lemmeknow_checker::{lemmeknow_identity, lemmeknow_verdict, LemmeKnow};
use crate::checkers::regex_checker::{
    builtin_patterns, find_first_hit, lemma_first_hit, regex_identity, regex_verdict,
    RegexChecker, EMAIL_PATTERN, IPV4_PATTERN, URL_PATTERN,
};
use crate::text::chars_of;
use std::marker::PhantomData;
use vstd::prelude::*;

verus! {

/// Family tag of the composite checker.
pub struct Athena;

/// Texts with fewer characters than this pass only if they are a known format.
pub const MIN_TEXT_LENGTH: usize = 2;

/// How Athena identifies itself.
pub open spec fn athena_identity() -> Identity {
    Identity { name: "Athena Checker"@, description: "Runs all available checkers"@, link: ""@ }
}

/// The verdicts Athena can reach on `text` with the patterns `patterns`.
///
/// A text below the minimum length is plaintext only if the format catalogue
/// knows it. Otherwise the regex patterns decide first, then the format
/// catalogue, then the English detector. The verdict is that of the first
/// sub-checker that identifies the text, in that sub-checker's name; where none
/// does, it is a negative verdict in Athena's own name.
pub open spec fn athena_post(
    athena: Identity,
    patterns: Seq<String>,
    text: Seq<char>,
    r: CheckResult,
) -> bool {
    let negative = verdict_of(athena, false, text, Seq::empty());
    let by_format = lemmeknow_verdict(lemmeknow_identity(), text);
    let by_regex = regex_verdict(regex_identity(), patterns, text);
    if text.len() < MIN_TEXT_LENGTH {
        r@ == (if by_format.is_identified {
            by_format
        } else {
            negative
        })
    } else if by_regex.is_identified {
        r@ == by_regex
    } else if by_format.is_identified {
        r@ == by_format
    } else {
        ||| r@ == verdict_of(english_identity(), true, text, english_description(true))
        ||| r@ == negative
    }
}

impl Checker<Athena> {
    /// The negative verdict in Athena's own name.
    fn negative(&self, text: &str) -> (r: CheckResult)
        ensures
            r@ == verdict_of(self.identity(), false, text@, Seq::empty()),
    {
        let mut r = CheckResult::new(self);
        r.text = text.to_owned();
        r
    }
}

impl Check for Checker<Athena> {
    open spec fn sensitivity_level(&self) -> Sensitivity {
        self.sensitivity
    }

    open spec fn check_post(&self, text: Seq<char>, r: CheckResult) -> bool {
        athena_post(self.identity(), self.regex_list@, text, r)
    }

    /// Athena with the built-in patterns; append the user's patterns to
    /// `regex_list`.
    fn new() -> (c: Self)
        ensures
            c.identity() == athena_identity(),
            c.tags@.len() == 2,
            c.tags@[0]@ == "athena"@,
            c.tags@[1]@ == "all"@,
            c.expected_runtime == 1000,
            c.popularity == 100,
            c.sensitivity == Sensitivity::Medium,
            c.regex_list@.len() == 3,
            c.regex_list@[0]@ == EMAIL_PATTERN@,
            c.regex_list@[1]@ == URL_PATTERN@,
            c.regex_list@[2]@ == IPV4_PATTERN@,
    {
        Checker {
            name: "Athena Checker",
            description: "Runs all available checkers",
            link: "",
            tags: vec!["athena", "all"],
            expected_runtime: 1000,
            popularity: 100,
            sensitivity: Sensitivity::Medium,
            regex_list: builtin_patterns(),
            enhanced_detector: None,
            _phantom: PhantomData,
        }
    }

    fn check(&self, text: &str) -> (r: CheckResult) {
        let format_checker = Checker::<LemmeKnow>::new();
        if chars_of(text).len() < MIN_TEXT_LENGTH {
            let by_format = format_checker.check(text);
            if by_format.is_identified {
                return by_format;
            }
            return self.negative(text);
        }
        match find_first_hit(&self.regex_list, text) {
            Some(i) => {
                proof {
                    lemma_first_hit(self.regex_list@, self.regex_list@.len() as int, text@);
                }
                let mut by_regex = CheckResult::new(&Checker::<RegexChecker>::new());
                by_regex.is_identified = true;
                by_regex.text = text.to_owned();
                by_regex.description = self.regex_list[i].clone();
                return by_regex;
            },
            None => {},
        }
        let by_format = format_checker.check(text);
        if by_format.is_identified {
            return by_format;
        }
        let english = Checker::<EnglishChecker>::new().with_sensitivity(self.sensitivity);
        let by_english = english.check(text);
        if by_english.is_identified {
            return by_english;
        }
        self.negative(text)
    }

    fn with_sensitivity(self, sensitivity: Sensitivity) -> (c: Self)
        ensures
            c == (Checker { sensitivity, ..self }),
    {
        let c = Checker { sensitivity, ..self };
        assert(c.sensitivity_level() == sensitivity);
        c
    }

    fn get_sensitivity(&self) -> (s: Sensitivity) {
        self.sensitivity
    }
}

} // verus!
