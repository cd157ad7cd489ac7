//! Plaintext recognition: the checkers and the composite that chains them.

pub mod athena;
pub mod checker_result;
pub mod checker_type;
pub mod english;
pub mod human_checker;
pub mod lemmeknow_checker;
pub mod regex_checker;

use crate::checkers::athena::Athena;
use crate::checkers::checker_result::CheckResult;
use crate::checkers::checker_type::{Check, Checker, Sensitivity};
use crate::checkers::english::EnglishChecker;
use crate::checkers::lemmeknow_checker::LemmeKnow;
use crate::checkers::regex_checker::RegexChecker;
use vstd::prelude::*;

verus! {

/// The checker a search works with: one of the families, picked at runtime.
pub enum CheckerTypes {
    /// The composite checker
    CheckAthena(Checker<Athena>),
    /// The English detector alone
    CheckEnglish(Checker<EnglishChecker>),
    /// The format catalogue alone
    CheckLemmeKnow(Checker<LemmeKnow>),
    /// The regex patterns alone
    CheckRegex(Checker<RegexChecker>),
}

impl CheckerTypes {
    /// The verdicts that `check` can hand back for `text`: those of the family
    /// that was picked.
    pub open spec fn check_post(&self, text: Seq<char>, r: CheckResult) -> bool {
        match self {
            CheckerTypes::CheckAthena(c) => c.check_post(text, r),
            CheckerTypes::CheckEnglish(c) => c.check_post(text, r),
            CheckerTypes::CheckLemmeKnow(c) => c.check_post(text, r),
            CheckerTypes::CheckRegex(c) => c.check_post(text, r),
        }
    }

    /// The checker can classify `text` as plaintext.
    pub open spec fn accepts(&self, text: Seq<char>) -> bool {
        exists|r: CheckResult| #[trigger] self.check_post(text, r) && r.is_identified
    }

    /// Every verdict is about the text that was handed in.
    pub proof fn lemma_verdict_text(&self, text: Seq<char>, r: CheckResult)
        requires
            self.check_post(text, r),
        ensures
            r.text@ == text,
    {
    }

    /// Checks the given text with the checker that was picked.
    pub fn check(&self, text: &str) -> (r: CheckResult)
        ensures
            self.check_post(text@, r),
            r.text@ == text@,
            r.is_identified ==> self.accepts(text@),
    {
        let r = match self {
            CheckerTypes::CheckAthena(c) => c.check(text),
            CheckerTypes::CheckEnglish(c) => c.check(text),
            CheckerTypes::CheckLemmeKnow(c) => c.check(text),
            CheckerTypes::CheckRegex(c) => c.check(text),
        };
        assert(self.check_post(text@, r));
        r
    }

    /// The sensitivity of the checker that was picked.
    pub fn get_sensitivity(&self) -> (s: Sensitivity)
        ensures
            s == match self {
                CheckerTypes::CheckAthena(c) => c.sensitivity,
                CheckerTypes::CheckEnglish(c) => c.sensitivity,
                CheckerTypes::CheckLemmeKnow(c) => c.sensitivity,
                CheckerTypes::CheckRegex(c) => c.sensitivity,
            },
    {
        match self {
            CheckerTypes::CheckAthena(c) => c.get_sensitivity(),
            CheckerTypes::CheckEnglish(c) => c.get_sensitivity(),
            CheckerTypes::CheckLemmeKnow(c) => c.get_sensitivity(),
            CheckerTypes::CheckRegex(c) => c.get_sensitivity(),
        }
    }
}

} // verus!
