//! The common shape of every decoder, and what all decoders agree on.

use crate::checkers::checker_result::CheckResult;
use crate::checkers::CheckerTypes;
use crate::decoders::crack_results::{CrackResult, CrackView};
use crate::text::{all_unprintable, char_is_unprintable, chars_of, is_unprintable};
use std::marker::PhantomData;
use vstd::prelude::*;

verus! {

/// A decoder of family `Type`. The family decides what `crack` does; the fields
/// describe it to the search and to the user.
pub struct Decoder<Type> {
    /// The name of the decoder
    pub name: &'static str,
    /// A description, the first line of an encyclopedia entry for instance
    pub description: &'static str,
    /// Where to read more about the encoding
    pub link: &'static str,
    /// Short identifiers that group decoders into families
    pub tags: Vec<&'static str>,
    /// How often the encoding is met in the wild, in hundredths (0 to 100)
    pub popularity: u32,
    /// Ties the value to its family
    pub phantom: PhantomData<Type>,
}

/// A decoder as a mathematical value: every text by its characters.
pub struct Descriptor {
    pub name: Seq<char>,
    pub description: Seq<char>,
    pub link: Seq<char>,
    pub tags: Seq<Seq<char>>,
    pub popularity: nat,
}

impl<Type> View for Decoder<Type> {
    type V = Descriptor;

    open spec fn view(&self) -> Descriptor {
        Descriptor {
            name: self.name@,
            description: self.description@,
            link: self.link@,
            tags: self.tags.deep_view(),
            popularity: self.popularity as nat,
        }
    }
}

/// A decoded text is worth keeping: it is not empty, it differs from the text
/// it was decoded from, and at least one of its characters is printable.
pub open spec fn string_success(decoded: Seq<char>, original: Seq<char>) -> bool {
    &&& decoded.len() > 0
    &&& decoded != original
    &&& !all_unprintable(decoded)
}

/// Whether a decoder's output is worth keeping, see [`string_success`].
pub fn check_string_success(decoded_text: &str, original_text: &str) -> (r: bool)
    ensures
        r == string_success(decoded_text@, original_text@),
{
    let decoded = chars_of(decoded_text);
    let original = chars_of(original_text);
    if decoded.len() == 0 {
        return false;
    }
    let mut same = decoded.len() == original.len();
    let mut printable = false;
    let mut i: usize = 0;
    while i < decoded.len()
        invariant
            i <= decoded.len(),
            same ==> decoded.len() == original.len(),
            same <==> (decoded.len() == original.len() && forall|j: int|
                0 <= j < i ==> decoded@[j] == original@[j]),
            printable <==> exists|j: int| 0 <= j < i && !is_unprintable(#[trigger] decoded@[j]),
        decreases decoded.len() - i,
    {
        if same && decoded[i] != original[i] {
            same = false;
        }
        if !char_is_unprintable(decoded[i]) {
            printable = true;
        }
        i += 1;
    }
    assert(same <==> decoded@ =~= original@);
    !same && printable
}

/// What a decoder keeps of its raw output `decoded` for the input `text`: the
/// output itself where it is worth keeping, nothing otherwise. Nothing is
/// kept for the empty input: there was nothing to decode.
pub open spec fn kept(decoded: Option<Seq<char>>, text: Seq<char>) -> Option<Seq<char>> {
    match decoded {
        Some(d) => if text.len() > 0 && string_success(d, text) {
            Some(d)
        } else {
            None
        },
        None => None,
    }
}

/// The candidates of a decoder that yields at most one text.
pub open spec fn single(plain: Option<Seq<char>>) -> Option<Seq<Seq<char>>> {
    match plain {
        Some(p) => Some(seq![p]),
        None => None,
    }
}

/// An optional text by its characters.
pub open spec fn text_view(text: Option<String>) -> Option<Seq<char>> {
    match text {
        Some(t) => Some(t@),
        None => None,
    }
}

/// An optional list of texts by their characters.
pub open spec fn texts_view(texts: Option<Vec<String>>) -> Option<Seq<Seq<char>>> {
    match texts {
        Some(list) => Some(list.deep_view()),
        None => None,
    }
}

/// The record carries the verdict `c`: the names of the checker that gave it.
pub open spec fn judged_by(r: CrackResult, c: CheckResult) -> bool {
    r.checker_name@ == c.checker_name@ && r.checker_description@ == c.checker_description@
}

/// The checker has a verdict on `text` that does not identify it.
pub open spec fn passes_over(checker: CheckerTypes, text: Seq<char>) -> bool {
    exists|c: CheckResult| #[trigger] checker.check_post(text, c) && !c.is_identified
}

/// The checker has passed over each of the first `n` of `list`.
pub open spec fn passed_over(checker: CheckerTypes, list: Seq<Seq<char>>, n: int) -> bool {
    forall|j: int| 0 <= j < n ==> passes_over(checker, #[trigger] list[j])
}

/// The record is a success: it holds, as its only candidate, the first of
/// `list` that the checker identifies, with the verdict on it; the checker has
/// passed over every candidate before it.
pub open spec fn holds_accepted(list: Seq<Seq<char>>, checker: CheckerTypes, r: CrackResult) -> bool {
    exists|i: int, c: CheckResult|
        {
            &&& 0 <= i < list.len()
            &&& #[trigger] checker.check_post(list[i], c)
            &&& c.is_identified
            &&& passed_over(checker, list, i)
            &&& r.success
            &&& r@.unencrypted_text == Some(seq![list[i]])
            &&& judged_by(r, c)
        }
}

/// The record is no success: the checker has passed over every one of `list`,
/// and the record holds them all, with the verdict on the last of them.
pub open spec fn holds_all(list: Seq<Seq<char>>, checker: CheckerTypes, r: CrackResult) -> bool {
    exists|c: CheckResult|
        {
            &&& list.len() > 0
            &&& #[trigger] checker.check_post(list.last(), c)
            &&& !c.is_identified
            &&& passed_over(checker, list, list.len() as int)
            &&& !r.success
            &&& r@.unencrypted_text == Some(list)
            &&& judged_by(r, c)
        }
}

/// What `crack` owes for the input `text` when the decoder `decoder` yields
/// `candidates` for it.
///
/// The record names the decoder and the input. Where nothing was decoded it
/// holds no candidates and no checker. Otherwise the checker judges the
/// candidates in order. The first candidate that it identifies becomes the
/// only candidate of the record, which is then a success. Where it identifies
/// none, the record holds all candidates, is no success, and carries the
/// verdict on the last of them.
pub open spec fn crack_post(
    decoder: Descriptor,
    candidates: Option<Seq<Seq<char>>>,
    text: Seq<char>,
    checker: CheckerTypes,
    r: CrackResult,
) -> bool {
    &&& r.encrypted_text@ == text
    &&& r.decoder@ == decoder.name
    &&& r.description@ == decoder.description
    &&& r.link@ == decoder.link
    &&& r.key.is_none()
    &&& match candidates {
        None => {
            &&& r@.unencrypted_text.is_none()
            &&& !r.success
            &&& r.checker_name@ == Seq::<char>::empty()
            &&& r.checker_description@ == Seq::<char>::empty()
        },
        Some(list) => {
            holds_accepted(list, checker, r) || holds_all(list, checker, r)
        },
    }
}

/// The checker has one verdict for every text: whatever `check` hands back
/// for a text, it is the same each time. The checkers that rest on patterns
/// alone are of this kind.
pub open spec fn determined(checker: CheckerTypes) -> bool {
    forall|text: Seq<char>, c: CheckResult, d: CheckResult|
        #[trigger] checker.check_post(text, c) && #[trigger] checker.check_post(text, d) ==> c@
            == d@
}

/// The checkers that rest on patterns alone, the regex checker and the format
/// checker, have one verdict for every text.
pub proof fn lemma_pattern_checkers_are_determined(checker: CheckerTypes)
    requires
        checker is CheckRegex || checker is CheckLemmeKnow,
    ensures
        determined(checker),
{
}

/// With a checker that has one verdict for every text, `crack` has one
/// record for every text: two records that meet [`crack_post`] for the same
/// decoder, candidates and text are the same.
pub proof fn lemma_crack_is_determined(
    decoder: Descriptor,
    candidates: Option<Seq<Seq<char>>>,
    text: Seq<char>,
    checker: CheckerTypes,
    r: CrackResult,
    again: CrackResult,
)
    requires
        determined(checker),
        crack_post(decoder, candidates, text, checker, r),
        crack_post(decoder, candidates, text, checker, again),
    ensures
        r@ == again@,
{
    match candidates {
        None => {},
        Some(list) => {
            if holds_accepted(list, checker, r) {
                let (i, c) = choose|i: int, c: CheckResult|
                    {
                        &&& 0 <= i < list.len()
                        &&& #[trigger] checker.check_post(list[i], c)
                        &&& c.is_identified
                        &&& passed_over(checker, list, i)
                        &&& r.success
                        &&& r@.unencrypted_text == Some(seq![list[i]])
                        &&& judged_by(r, c)
                    };
                if holds_accepted(list, checker, again) {
                    let (k, d) = choose|k: int, d: CheckResult|
                        {
                            &&& 0 <= k < list.len()
                            &&& #[trigger] checker.check_post(list[k], d)
                            &&& d.is_identified
                            &&& passed_over(checker, list, k)
                            &&& again.success
                            &&& again@.unencrypted_text == Some(seq![list[k]])
                            &&& judged_by(again, d)
                        };
                    if i < k {
                        lemma_passed_over_is_not_identified(checker, list[i], c);
                    }
                    if k < i {
                        lemma_passed_over_is_not_identified(checker, list[k], d);
                    }
                    assert(i == k);
                    assert(c@ == d@);
                } else {
                    assert(holds_all(list, checker, again));
                    lemma_passed_over_is_not_identified(checker, list[i], c);
                }
            } else {
                assert(holds_all(list, checker, r));
                let c = choose|c: CheckResult|
                    {
                        &&& list.len() > 0
                        &&& #[trigger] checker.check_post(list.last(), c)
                        &&& !c.is_identified
                        &&& passed_over(checker, list, list.len() as int)
                        &&& !r.success
                        &&& r@.unencrypted_text == Some(list)
                        &&& judged_by(r, c)
                    };
                if holds_accepted(list, checker, again) {
                    let (k, d) = choose|k: int, d: CheckResult|
                        {
                            &&& 0 <= k < list.len()
                            &&& #[trigger] checker.check_post(list[k], d)
                            &&& d.is_identified
                            &&& passed_over(checker, list, k)
                            &&& again.success
                            &&& again@.unencrypted_text == Some(seq![list[k]])
                            &&& judged_by(again, d)
                        };
                    lemma_passed_over_is_not_identified(checker, list[k], d);
                } else {
                    assert(holds_all(list, checker, again));
                    let d = choose|d: CheckResult|
                        {
                            &&& list.len() > 0
                            &&& #[trigger] checker.check_post(list.last(), d)
                            &&& !d.is_identified
                            &&& passed_over(checker, list, list.len() as int)
                            &&& !again.success
                            &&& again@.unencrypted_text == Some(list)
                            &&& judged_by(again, d)
                        };
                    assert(c@ == d@);
                }
            }
        },
    }
}

/// With a checker that has one verdict for every text, a text that the
/// checker has passed over is not one that it identifies.
pub proof fn lemma_passed_over_is_not_identified(
    checker: CheckerTypes,
    text: Seq<char>,
    c: CheckResult,
)
    requires
        determined(checker),
        checker.check_post(text, c),
        passes_over(checker, text),
    ensures
        !c.is_identified,
{
    let d = choose|d: CheckResult| #[trigger] checker.check_post(text, d) && !d.is_identified;
    assert(c@ == d@);
}

/// Every decoder implements this trait: it turns a text into candidate
/// plaintexts and has a checker judge them.
pub trait Crack: Sized {
    /// The candidates this family of decoder yields for `text`, in order;
    /// `None` where it yields none
    spec fn candidates(text: Seq<char>) -> Option<Seq<Seq<char>>>;

    /// The decoder as a mathematical value
    spec fn descriptor(&self) -> Descriptor;

    /// Returns the decoder of this family
    fn new() -> Self;

    /// Decodes `text`, without judging what comes out
    fn attempt(&self, text: &str) -> (r: Option<Vec<String>>)
        ensures
            texts_view(r) == Self::candidates(text@),
            r matches Some(list) ==> list@.len() > 0,
    ;

    /// Decodes `text` and has `checker` judge what came out
    fn crack(&self, text: &str, checker: &CheckerTypes) -> (r: CrackResult)
        ensures
            crack_post(self.descriptor(), Self::candidates(text@), text@, *checker, r),
    ;

    /// Gets all tags for this decoder
    fn get_tags(&self) -> (r: &Vec<&str>)
        ensures
            r.deep_view() == self.descriptor().tags,
    ;

    /// Gets the name for the current decoder
    fn get_name(&self) -> (r: &str)
        ensures
            r@ == self.descriptor().name,
    ;

    /// Gets the description for the current decoder
    fn get_description(&self) -> (r: &str)
        ensures
            r@ == self.descriptor().description,
    ;

    /// Gets the link for the current decoder
    fn get_link(&self) -> (r: &str)
        ensures
            r@ == self.descriptor().link,
    ;

    /// Gets the popularity of the current decoder, in hundredths
    fn get_popularity(&self) -> (r: u32)
        ensures
            r as nat == self.descriptor().popularity,
    ;
}

/// Keeps of a decoder's raw output what is worth keeping, see [`kept`], as
/// the only candidate.
pub fn keep_decoded(decoded: Option<String>, text: &str) -> (r: Option<Vec<String>>)
    ensures
        texts_view(r) == single(kept(text_view(decoded), text@)),
        r matches Some(list) ==> list@.len() > 0,
{
    match decoded {
        None => None,
        Some(decoded_text) => {
            if !text.is_empty() && check_string_success(decoded_text.as_str(), text) {
                let ghost plain = decoded_text@;
                let mut list: Vec<String> = Vec::new();
                list.push(decoded_text);
                assert(list.deep_view() =~= seq![plain]);
                Some(list)
            } else {
                None
            }
        },
    }
}

/// The record of an attempt of `decoder` on `text` that yielded `candidates`,
/// with the verdict `verdict` of a checker.
pub fn record_candidates<Type>(
    decoder: &Decoder<Type>,
    text: &str,
    candidates: Vec<String>,
    verdict: &CheckResult,
) -> (r: CrackResult)
    ensures
        r@ == (CrackView {
            success: verdict.is_identified,
            encrypted_text: text@,
            unencrypted_text: Some(candidates.deep_view()),
            decoder: decoder.name@,
            checker_name: verdict.checker_name@,
            checker_description: verdict.checker_description@,
            key: None,
            description: decoder.description@,
            link: decoder.link@,
        }),
        r.key.is_none(),
{
    let mut results = CrackResult::new(decoder, text.to_owned());
    results.unencrypted_text = Some(candidates);
    results.update_checker(verdict);
    results
}

/// The second half of every `crack`: given the candidates that the decoder
/// yielded for `text`, have the checker judge them in order and write the
/// record, see [`crack_post`].
pub fn judge_decoded<Type>(
    decoder: &Decoder<Type>,
    text: &str,
    candidates: Option<Vec<String>>,
    checker: &CheckerTypes,
) -> (r: CrackResult)
    requires
        candidates matches Some(list) ==> list@.len() > 0,
    ensures
        crack_post(decoder@, texts_view(candidates), text@, *checker, r),
{
    let list = match candidates {
        None => {
            return CrackResult::new(decoder, text.to_owned());
        },
        Some(list) => list,
    };
    let ghost all = list.deep_view();
    let count = list.len();
    let mut last = checker.check(list[0].as_str());
    let mut i: usize = 0;
    while i < count - 1 && !last.is_identified
        invariant
            count == list@.len(),
            i < count,
            all == list.deep_view(),
            texts_view(candidates) == Some(all),
            checker.check_post(all[i as int], last),
            passed_over(*checker, all, i as int),
        decreases count - i,
    {
        assert(passes_over(*checker, all[i as int]));
        i += 1;
        last = checker.check(list[i].as_str());
    }
    if last.is_identified {
        let ghost chosen = list@[i as int]@;
        let mut only: Vec<String> = Vec::new();
        only.push(list[i].clone());
        let results = record_candidates(decoder, text, only, &last);
        proof {
            assert(all[i as int] == chosen);
            assert(only.deep_view() =~= seq![all[i as int]]);
            assert(checker.check_post(all[i as int], last));
            assert(judged_by(results, last));
            assert(holds_accepted(all, *checker, results));
        }
        results
    } else {
        let results = record_candidates(decoder, text, list, &last);
        proof {
            assert(i == count - 1);
            assert(passes_over(*checker, all[i as int]));
            assert(all.last() == all[i as int]);
            assert(checker.check_post(all.last(), last));
            assert(judged_by(results, last));
            assert(holds_all(all, *checker, results));
        }
        results
    }
}

} // verus!
