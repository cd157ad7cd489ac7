//! The common shape of every checker, so that checkers can be picked and
//! composed at runtime.

use crate::checkers::checker_result::CheckResult;
use std::marker::PhantomData;
use vstd::prelude::*;

verus! {

/// The sensitivity level that the gibberish detector is run with. The levels
/// move the threshold at which the detector takes a text for English.
#[derive(Debug, Clone, Copy, PartialEq, Eq, Structural)]
pub enum Sensitivity {
    /// Low sensitivity
    Low,
    /// Medium sensitivity, the balanced setting
    Medium,
    /// High sensitivity
    High,
}

/// A checker of family `Type`. The family decides what `check` does; the fields
/// carry its identification and tuning.
pub struct Checker<Type> {
    /// The name of the checker
    pub name: &'static str,
    /// The description of the checker
    pub description: &'static str,
    /// The link to the checker's website
    pub link: &'static str,
    /// The tags of the checker
    pub tags: Vec<&'static str>,
    /// The expected runtime of the checker, in milliseconds
    pub expected_runtime: u32,
    /// The popularity of the checker, in hundredths (0 to 100)
    pub popularity: u32,
    /// The sensitivity level for gibberish detection.
    /// Only the checkers that detect gibberish read it.
    pub sensitivity: Sensitivity,
    /// Patterns supplied by the user; a text matching one of them is plaintext.
    /// Only the checkers that match patterns read it.
    pub regex_list: Vec<String>,
    /// Enhanced gibberish detector; none is built in
    pub enhanced_detector: Option<()>,
    /// Ties the value to its family
    pub _phantom: PhantomData<Type>,
}

/// The name, description and link of a checker, each by its characters.
pub struct Identity {
    pub name: Seq<char>,
    pub description: Seq<char>,
    pub link: Seq<char>,
}

impl<Type> Checker<Type> {
    /// The identification this checker puts on its verdicts
    pub open spec fn identity(self) -> Identity {
        Identity { name: self.name@, description: self.description@, link: self.link@ }
    }
}

/// Helper trait for returning info from a checker
pub trait CheckInfo {
    /// The name the checker goes by, as a specification value
    spec fn name_text(&self) -> Seq<char>;

    /// The description of the checker, as a specification value
    spec fn description_text(&self) -> Seq<char>;

    /// Returns the checker name
    fn get_name(&self) -> (r: &str)
        ensures
            r@ == self.name_text(),
    ;

    /// Returns the checker description
    fn get_description(&self) -> (r: &str)
        ensures
            r@ == self.description_text(),
    ;
}

impl<Type> CheckInfo for Checker<Type> {
    open spec fn name_text(&self) -> Seq<char> {
        self.name@
    }

    open spec fn description_text(&self) -> Seq<char> {
        self.description@
    }

    fn get_name(&self) -> (r: &str) {
        self.name
    }

    fn get_description(&self) -> (r: &str) {
        self.description
    }
}

/// Every checker implements this trait: it looks at a text and says whether it
/// is plaintext.
pub trait Check: Sized {
    /// The sensitivity the checker currently works with
    spec fn sensitivity_level(&self) -> Sensitivity;

    /// The verdicts that `check` can hand back for `text`. Where the decision
    /// rests on pattern catalogues alone it admits exactly one verdict; where a
    /// statistical detector decides, it fixes everything but the decision.
    spec fn check_post(&self, text: Seq<char>, r: CheckResult) -> bool;

    /// Returns a checker of this family with its default tuning
    fn new() -> Self;

    /// Checks the given text to see if it is plaintext
    fn check(&self, text: &str) -> (r: CheckResult)
        ensures
            self.check_post(text@, r),
    ;

    /// Sets the sensitivity level for gibberish detection
    fn with_sensitivity(self, sensitivity: Sensitivity) -> (c: Self)
        ensures
            c.sensitivity_level() == sensitivity,
    ;

    /// Gets the current sensitivity level
    fn get_sensitivity(&self) -> (s: Sensitivity)
        ensures
            s == self.sensitivity_level(),
    ;
}

/// Optional trait for checkers whose verdict depends on a sensitivity level.
/// No checker of this crate needs more than [`Check`] offers; the trait is the
/// extension point for checkers defined elsewhere.
pub trait SensitivityAware: Sized {
    /// Sets the sensitivity level for gibberish detection
    fn with_sensitivity(self, sensitivity: Sensitivity) -> Self;

    /// Gets the current sensitivity level
    fn get_sensitivity(&self) -> Sensitivity;
}

} // verus!
