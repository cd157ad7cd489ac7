//! The human checker: the last say on a candidate belongs to a human.
//!
//! Asking is not done here. `human_checker` decides whether a human has to be
//! asked, and `human_reply` takes the answer; whoever runs the search shows
//! the prompt and reads the reply in between.

use crate::checkers::checker_result::CheckResult;
use crate::config::Config;
use crate::storage::database::{insert_failed_decodes, Database};
use crate::storage::rows::FailedDecodesRow;
use crate::text::{chars_of, push_char};
use crate::timer::Timer;
use crate::text_set::{new_set, set_contains, set_insert, set_keys};
use dashmap::DashSet;
use vstd::prelude::*;
use vstd::string::StringExecFns;

verus! {

/// The prompts a human has seen in this process, and those answered with no.
pub struct SeenPrompts {
    /// The keys of all prompts that were shown
    asked: DashSet<String>,
    /// The keys of the prompts that were refused
    refused: DashSet<String>,
}

/// The key of the pair of a description and a text: as many `#` as the
/// description has characters, a `:`, the description, the text. The tally in
/// front says where the description ends, so that different pairs have
/// different keys.
pub open spec fn pair_key(description: Seq<char>, text: Seq<char>) -> Seq<char> {
    Seq::new(description.len(), |i: int| '#') + seq![':'] + description + text
}

/// The key under which a prompt is remembered: that of the pair of the
/// description of the finding and the text.
pub open spec fn prompt_key(input: CheckResult) -> Seq<char> {
    pair_key(input.description@, input.text@)
}

/// Pairs with the same key are the same pair.
pub proof fn lemma_pair_key_injective(
    description: Seq<char>,
    text: Seq<char>,
    other_description: Seq<char>,
    other_text: Seq<char>,
)
    requires
        pair_key(description, text) == pair_key(other_description, other_text),
    ensures
        description == other_description,
        text == other_text,
{
    let key = pair_key(description, text);
    let other = pair_key(other_description, other_text);
    let n = description.len() as int;
    let m = other_description.len() as int;
    assert(key[n] == ':');
    assert(other[m] == ':');
    if n < m {
        assert(other[n] == '#');
    }
    if m < n {
        assert(key[m] == '#');
    }
    assert(n == m);
    assert(key.len() == 2 * n + 1 + text.len());
    assert(other.len() == 2 * m + 1 + other_text.len());
    assert forall|i: int| 0 <= i < n implies description[i] == other_description[i] by {
        assert(key[n + 1 + i] == description[i]);
        assert(other[n + 1 + i] == other_description[i]);
    }
    assert(description =~= other_description);
    assert forall|i: int| 0 <= i < text.len() implies text[i] == other_text[i] by {
        assert(key[2 * n + 1 + i] == text[i]);
        assert(other[2 * n + 1 + i] == other_text[i]);
    }
    assert(text =~= other_text);
}

/// Prompts with the same key are about the same description and the same
/// text.
pub proof fn lemma_prompt_key_injective(a: CheckResult, b: CheckResult)
    requires
        prompt_key(a) == prompt_key(b),
    ensures
        a.description@ == b.description@,
        a.text@ == b.text@,
{
    lemma_pair_key_injective(a.description@, a.text@, b.description@, b.text@);
}

impl SeenPrompts {
    /// The keys of all prompts that were shown.
    pub closed spec fn asked_keys(&self) -> Set<Seq<char>> {
        set_keys(self.asked)
    }

    /// The keys of the prompts that a human refused.
    pub closed spec fn refused_keys(&self) -> Set<Seq<char>> {
        set_keys(self.refused)
    }

    /// No prompt has been shown yet.
    pub fn new() -> (s: SeenPrompts)
        ensures
            s.asked_keys() == Set::<Seq<char>>::empty(),
            s.refused_keys() == Set::<Seq<char>>::empty(),
    {
        SeenPrompts { asked: new_set(), refused: new_set() }
    }
}

/// What the human checker decides before anybody is asked.
#[derive(Debug, Clone, Copy, PartialEq, Eq, Structural)]
pub enum HumanDecision {
    /// The candidate stands without a prompt
    Confirmed,
    /// The candidate was refused before and stays refused, without a prompt
    Refused,
    /// A human has to be asked; the answer goes to `human_reply`
    Ask,
}

/// What `human_checker` decides for `input`.
///
/// Without a human in the loop every candidate stands. With one, a prompt
/// that was shown before is not shown again: its earlier answer stands. Only
/// a new prompt is asked.
pub open spec fn human_decision(config: Config, seen: SeenPrompts, input: CheckResult) -> HumanDecision {
    if !config.asks_human() {
        HumanDecision::Confirmed
    } else if seen.asked_keys().contains(prompt_key(input)) {
        if seen.refused_keys().contains(prompt_key(input)) {
            HumanDecision::Refused
        } else {
            HumanDecision::Confirmed
        }
    } else {
        HumanDecision::Ask
    }
}

/// A prompt is shown at most once: once its key is among those that were
/// shown, the human checker decides without asking.
pub proof fn lemma_prompt_is_shown_once(config: Config, seen: SeenPrompts, input: CheckResult)
    requires
        seen.asked_keys().contains(prompt_key(input)),
    ensures
        human_decision(config, seen, input) != HumanDecision::Ask,
{
}

/// The key under which the prompt for `input` is remembered.
fn make_prompt_key(input: &CheckResult) -> (key: String)
    ensures
        key@ == prompt_key(*input),
{
    let count = chars_of(input.description.as_str()).len();
    let mut key = String::new();
    let mut i: usize = 0;
    while i < count
        invariant
            i <= count,
            count == input.description@.len(),
            key@ == Seq::new(i as nat, |k: int| '#'),
        decreases count - i,
    {
        push_char(&mut key, '#');
        assert(key@ =~= Seq::new((i + 1) as nat, |k: int| '#'));
        i += 1;
    }
    push_char(&mut key, ':');
    key.append(input.description.as_str());
    key.append(input.text.as_str());
    assert(key@ =~= prompt_key(*input));
    key
}

/// The Human Checker asks humans if the expected plaintext is real plaintext.
/// Automated checkers get false positives; humans have the last say.
///
/// This is the part before the prompt. The clock is paused while the decision
/// is made and stays paused only where a human is about to be asked. A new
/// prompt is remembered as shown.
pub fn human_checker(
    input: &CheckResult,
    config: &Config,
    seen: &mut SeenPrompts,
    timer: &mut Timer,
    now: u64,
) -> (decision: HumanDecision)
    ensures
        decision == human_decision(*config, *old(seen), *input),
        final(seen).refused_keys() == old(seen).refused_keys(),
        final(seen).asked_keys() == if config.asks_human() {
            old(seen).asked_keys().insert(prompt_key(*input))
        } else {
            old(seen).asked_keys()
        },
        *final(timer) == if decision == HumanDecision::Ask {
            old(timer).after_pause(now)
        } else {
            old(timer).after_pause(now).after_resume(now)
        },
{
    timer.pause(now);
    // We still call human checker, just if config is false we return True
    if !config.human_is_asked() {
        timer.resume(now);
        return HumanDecision::Confirmed;
    }
    // Check if we've already prompted for this text
    let key = make_prompt_key(input);
    let was_refused = set_contains(&seen.refused, &key);
    if !set_insert(&mut seen.asked, key) {
        timer.resume(now);
        assert(seen.asked_keys() =~= old(seen).asked_keys().insert(prompt_key(*input)));
        return if was_refused {
            HumanDecision::Refused
        } else {
            HumanDecision::Confirmed
        };
    }
    HumanDecision::Ask
}

/// The refusal of `input` was written to the failed_decodes table, as far as
/// the table can be written: where the table exists and its ids have not run
/// out, it has one more row, under the next id, with the text that was
/// refused and the name of the checker that had identified it; otherwise it
/// is as it was.
pub open spec fn refusal_recorded(before: Database, after: Database, input: CheckResult) -> bool {
    match before.failed_table() {
        None => after.failed_table().is_none(),
        Some(rows) => if rows.len() < usize::MAX {
            exists|row: FailedDecodesRow|
                {
                    &&& after.failed_table() == Some(#[trigger] rows.push(row))
                    &&& row.id == rows.len() + 1
                    &&& row.plaintext@ == input.text@
                    &&& row.checker@ == input.checker_name@
                }
        } else {
            after.failed_table() == Some(rows)
        },
    }
}

/// Over the human checker the clock is paused once and resumed once: after
/// `human_checker` where nobody is asked, and after `human_checker` and
/// `human_reply` where somebody is, as many pauses are waiting as before, and
/// the clock runs if and only if it ran before. (At the largest depth that
/// the clock can count, a pause is not counted, and this does not hold.)
pub proof fn lemma_human_checker_is_balanced(timer: Timer, asked_at: u64, replied_at: u64)
    requires
        timer.pause_depth < u64::MAX,
    ensures
        timer.after_pause(asked_at).after_resume(asked_at).pause_depth == timer.pause_depth,
        timer.after_pause(asked_at).after_resume(asked_at).paused() == timer.paused(),
        timer.after_pause(asked_at).paused(),
        timer.after_pause(asked_at).after_resume(replied_at).pause_depth == timer.pause_depth,
        timer.after_pause(asked_at).after_resume(replied_at).paused() == timer.paused(),
{
}

/// Whether `reply` means yes: it begins with `y` or `Y`.
pub open spec fn means_yes(reply: Seq<char>) -> bool {
    reply.len() > 0 && (reply[0] == 'y' || reply[0] == 'Y')
}

/// The part of the human checker after the prompt: takes the reply of the
/// human who was asked about `input`.
///
/// The clock, paused for the prompt, is resumed. A reply that does not mean
/// yes is a refusal: it is remembered, and written to the failed_decodes
/// table of the store under the name of the checker that had identified the
/// text.
pub fn human_reply(
    input: &CheckResult,
    reply: &str,
    seen: &mut SeenPrompts,
    db: &mut Database,
    timer: &mut Timer,
    now: u64,
) -> (accepted: bool)
    requires
        old(db).wf(),
    ensures
        accepted == means_yes(reply@),
        *final(timer) == old(timer).after_resume(now),
        final(seen).asked_keys() == old(seen).asked_keys(),
        final(seen).refused_keys() == if accepted {
            old(seen).refused_keys()
        } else {
            old(seen).refused_keys().insert(prompt_key(*input))
        },
        final(db).wf(),
        final(db).cache_table() == old(db).cache_table(),
        accepted ==> final(db).failed_table() == old(db).failed_table(),
        !accepted ==> refusal_recorded(*old(db), *final(db), *input),
{
    let letters = chars_of(reply);
    let accepted = letters.len() > 0 && (letters[0] == 'y' || letters[0] == 'Y');
    timer.resume(now);
    if !accepted {
        let key = make_prompt_key(input);
        let _ = set_insert(&mut seen.refused, key);
        let _ = insert_failed_decodes(db, &input.text, input);
    }
    accepted
}

} // verus!
