//! Recognises plaintext by regular expressions: a small built-in set and the
//! patterns the user supplies.

use crate::checkers::checker_result::{verdict_of, CheckResult, Verdict};
use crate::checkers::checker_type::{Check, Checker, Identity, Sensitivity};
use std::marker::PhantomData;
use vstd::prelude::*;

verus! {

/// Family tag of the checker that matches regular expressions.
pub struct RegexChecker;

/// Whether the regular expression `pattern` matches somewhere in `text`;
/// `None` where `pattern` is not a regular expression the engine accepts.
pub uninterp spec fn regex_match(pattern: Seq<char>, text: Seq<char>) -> Option<bool>;

/// Compiles `pattern` with `regex::Regex::new` and, where that succeeds, asks
/// `regex::Regex::is_match` about `text`. Both depend on their arguments alone
/// and neither panics; a pattern that does not compile gives `None`.
#[verifier::external_body]
fn pattern_matches(pattern: &str, text: &str) -> (r: Option<bool>)
    ensures
        r == regex_match(pattern@, text@),
{
    match regex::Regex::new(pattern) {
        Ok(compiled) => Some(compiled.is_match(text)),
        Err(_) => None,
    }
}

/// `patterns[i]` compiles and matches `text`.
pub open spec fn pattern_hits(patterns: Seq<String>, i: int, text: Seq<char>) -> bool {
    regex_match(patterns[i]@, text) == Some(true)
}

/// The index of the first pattern among the first `n` that matches `text`.
pub open spec fn first_hit(patterns: Seq<String>, n: int, text: Seq<char>) -> Option<int>
    decreases n,
{
    if n <= 0 {
        None
    } else {
        match first_hit(patterns, n - 1, text) {
            Some(i) => Some(i),
            None => if pattern_hits(patterns, n - 1, text) {
                Some(n - 1)
            } else {
                None
            },
        }
    }
}

/// `first_hit` finds a matching pattern and none before it matches; it finds
/// nothing only where no pattern matches.
pub proof fn lemma_first_hit(patterns: Seq<String>, n: int, text: Seq<char>)
    requires
        0 <= n <= patterns.len(),
    ensures
        match first_hit(patterns, n, text) {
            Some(i) => 0 <= i < n && pattern_hits(patterns, i, text) && forall|j: int|
                0 <= j < i ==> !pattern_hits(patterns, j, text),
            None => forall|j: int| 0 <= j < n ==> !pattern_hits(patterns, j, text),
        },
    decreases n,
{
    if n > 0 {
        lemma_first_hit(patterns, n - 1, text);
    }
}

/// How the regex checker identifies itself.
pub open spec fn regex_identity() -> Identity {
    Identity {
        name: "Regex Checker"@,
        description: "Uses regular expressions to check for plaintext markers"@,
        link: "https://github.com/rust-lang/regex"@,
    }
}

/// The verdict of the regex checker on `text`: identified exactly when one of
/// its patterns matches; the first such pattern is the description.
pub open spec fn regex_verdict(checker: Identity, patterns: Seq<String>, text: Seq<char>) -> Verdict {
    match first_hit(patterns, patterns.len() as int, text) {
        Some(i) => verdict_of(checker, true, text, patterns[i]@),
        None => verdict_of(checker, false, text, Seq::empty()),
    }
}

/// The index of the first of `patterns` that matches `text`.
pub fn find_first_hit(patterns: &Vec<String>, text: &str) -> (r: Option<usize>)
    ensures
        match r {
            Some(i) => first_hit(patterns@, patterns@.len() as int, text@) == Some(i as int),
            None => first_hit(patterns@, patterns@.len() as int, text@).is_none(),
        },
{
    let mut i: usize = 0;
    while i < patterns.len()
        invariant
            i <= patterns.len(),
            first_hit(patterns@, i as int, text@).is_none(),
        decreases patterns.len() - i,
    {
        let hit = pattern_matches(patterns[i].as_str(), text);
        if hit == Some(true) {
            proof {
                lemma_first_hit_stable(patterns@, i as int + 1, patterns@.len() as int, text@);
            }
            return Some(i);
        }
        i += 1;
    }
    None
}

/// Once a pattern among the first `n` matches, looking at more patterns does
/// not change which one is first.
pub proof fn lemma_first_hit_stable(patterns: Seq<String>, n: int, m: int, text: Seq<char>)
    requires
        0 <= n <= m,
        first_hit(patterns, n, text).is_some(),
    ensures
        first_hit(patterns, m, text) == first_hit(patterns, n, text),
    decreases m - n,
{
    if n < m {
        lemma_first_hit_stable(patterns, n, m - 1, text);
    }
}

/// An e-mail address.
pub const EMAIL_PATTERN: &'static str = r"^[A-Za-z0-9._%+-]+@[A-Za-z0-9.-]+\.[A-Za-z]{2,}$";

/// A web address.
pub const URL_PATTERN: &'static str = r"^https?://[A-Za-z0-9.-]+(:[0-9]+)?(/\S*)?$";

/// An IPv4 address in dotted notation.
pub const IPV4_PATTERN: &'static str = r"^([0-9]{1,3}\.){3}[0-9]{1,3}$";

/// The built-in patterns: e-mail address, web address, IPv4 address.
pub fn builtin_patterns() -> (v: Vec<String>)
    ensures
        v@.len() == 3,
        v@[0]@ == EMAIL_PATTERN@,
        v@[1]@ == URL_PATTERN@,
        v@[2]@ == IPV4_PATTERN@,
{
    let mut v: Vec<String> = Vec::new();
    v.push(EMAIL_PATTERN.to_owned());
    v.push(URL_PATTERN.to_owned());
    v.push(IPV4_PATTERN.to_owned());
    v
}

impl Check for Checker<RegexChecker> {
    open spec fn sensitivity_level(&self) -> Sensitivity {
        self.sensitivity
    }

    open spec fn check_post(&self, text: Seq<char>, r: CheckResult) -> bool {
        r@ == regex_verdict(self.identity(), self.regex_list@, text)
    }

    /// The checker with the built-in patterns; append the user's patterns to
    /// `regex_list`.
    fn new() -> (c: Self)
        ensures
            c.identity() == regex_identity(),
            c.tags@.len() == 1,
            c.tags@[0]@ == "regex"@,
            c.expected_runtime == 10,
            c.popularity == 100,
            c.sensitivity == Sensitivity::Medium,
            c.regex_list@.len() == 3,
            c.regex_list@[0]@ == EMAIL_PATTERN@,
            c.regex_list@[1]@ == URL_PATTERN@,
            c.regex_list@[2]@ == IPV4_PATTERN@,
    {
        Checker {
            name: "Regex Checker",
            description: "Uses regular expressions to check for plaintext markers",
            link: "https://github.com/rust-lang/regex",
            tags: vec!["regex"],
            expected_runtime: 10,
            popularity: 100,
            sensitivity: Sensitivity::Medium,
            regex_list: builtin_patterns(),
            enhanced_detector: None,
            _phantom: PhantomData,
        }
    }

    fn check(&self, text: &str) -> (r: CheckResult) {
        let mut r = CheckResult::new(self);
        r.text = text.to_owned();
        match find_first_hit(&self.regex_list, text) {
            Some(i) => {
                proof {
                    lemma_first_hit(self.regex_list@, self.regex_list@.len() as int, text@);
                }
                r.is_identified = true;
                r.description = self.regex_list[i].clone();
            },
            None => {},
        }
        r
    }

    fn with_sensitivity(self, sensitivity: Sensitivity) -> (c: Self)
        ensures
            c == (Checker { sensitivity, ..self }),
    {
        let c = Checker { sensitivity, ..self };
        assert(c.sensitivity_level() == sensitivity);
        c
    }

    fn get_sensitivity(&self) -> (s: Sensitivity) {
        self.sensitivity
    }
}

} // verus!
