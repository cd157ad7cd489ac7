//! The verdict of a checker on one candidate text.

use crate::checkers::checker_type::{Checker, Identity};
use vstd::prelude::*;

verus! {

/// What a checker found out about a text.
#[derive(Debug, Clone)]
pub struct CheckResult {
    /// Whether the text was recognised as plaintext
    pub is_identified: bool,
    /// The text that was classified
    pub text: String,
    /// A human-readable description of the finding
    pub description: String,
    /// Name of the checker that produced this verdict
    pub checker_name: &'static str,
    /// Description of that checker
    pub checker_description: &'static str,
    /// Link to that checker's documentation
    pub link: &'static str,
}

/// A verdict as a mathematical value: every text by its characters.
pub struct Verdict {
    pub is_identified: bool,
    pub text: Seq<char>,
    pub description: Seq<char>,
    pub checker_name: Seq<char>,
    pub checker_description: Seq<char>,
    pub link: Seq<char>,
}

impl View for CheckResult {
    type V = Verdict;

    open spec fn view(&self) -> Verdict {
        Verdict {
            is_identified: self.is_identified,
            text: self.text@,
            description: self.description@,
            checker_name: self.checker_name@,
            checker_description: self.checker_description@,
            link: self.link@,
        }
    }
}

/// The verdict of the checker known as `checker` on `text`: identified or not,
/// with `description`.
pub open spec fn verdict_of(
    checker: Identity,
    is_identified: bool,
    text: Seq<char>,
    description: Seq<char>,
) -> Verdict {
    Verdict {
        is_identified,
        text,
        description,
        checker_name: checker.name,
        checker_description: checker.description,
        link: checker.link,
    }
}

impl CheckResult {
    /// A copy of the verdict.
    pub fn duplicate(&self) -> (r: CheckResult)
        ensures
            r@ == self@,
    {
        CheckResult {
            is_identified: self.is_identified,
            text: self.text.clone(),
            description: self.description.clone(),
            checker_name: self.checker_name,
            checker_description: self.checker_description,
            link: self.link,
        }
    }

    /// A blank negative verdict in the name of `checker_used`: nothing
    /// identified, no text and no description attached yet.
    pub fn new<Type>(checker_used: &Checker<Type>) -> (r: CheckResult)
        ensures
            r@ == verdict_of(checker_used.identity(), false, Seq::empty(), Seq::empty()),
    {
        CheckResult {
            is_identified: false,
            text: String::new(),
            description: String::new(),
            checker_name: checker_used.name,
            checker_description: checker_used.description,
            link: checker_used.link,
        }
    }
}

} // verus!
