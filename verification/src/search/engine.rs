//! The engine: a best-first search over the chains of decoders, one step at a
//! time.
//!
//! A `Search` is a state machine. `step` serves one node, applies one decoder
//! or deals with one candidate, and says how to go on; where a human has to
//! confirm a candidate it hands out the prompt and waits for `answer`.
//! `search` runs the machine to its end for callers that have no human to
//! ask.

use crate::checkers::athena::{athena_identity, Athena};
use crate::checkers::checker_result::CheckResult;
use crate::checkers::checker_type::{Check, Checker};
use crate::checkers::human_checker::{
    human_checker, human_decision, human_reply, means_yes, prompt_key, refusal_recorded,
    HumanDecision, SeenPrompts,
};
use crate::checkers::lemmeknow_checker::{identified_format, identify_format};
use crate::checkers::regex_checker::{EMAIL_PATTERN, IPV4_PATTERN, URL_PATTERN};
use crate::checkers::CheckerTypes;
use crate::config::Config;
use crate::decoders::crack_results::{CrackResult, CrackView};
use crate::decoders::interface::texts_view;
use crate::decoders::{
    family_candidates, is_registry, produced_by, registry, DecoderTypes,
};
use crate::search::node::{
    akin, compute_score, dequeue, enqueue, enqueued, family_is_base, is_next, next_index, score,
    SearchNode, ROOT_PRIORITY,
};
use crate::search::solution::{
    lemma_links_consecutive, lemma_links_join, lemma_links_push, links, reported_time,
    solution_of, sound, step_ok, store_sound, stored_time, SearchError, Solution, SolutionView,
};
use crate::sequence::{first_match, lemma_first_index, lemma_first_match_push};
use crate::decoders::json::json_candidates;
use crate::storage::database::{
    can_insert, copy_path, has_room, insert_cache, inserted, stored_texts, CacheRecord, Database,
};
use crate::storage::rows::{copy_texts, identified_by, path_view, CacheEntry};
use crate::text_set::{new_set, set_contains, set_insert, set_keys, set_len};
use dashmap::DashSet;
use crate::timer::{Clock, Timer};
use vstd::prelude::*;

verus! {

/// A candidate that waits for the word of a human.
#[derive(Debug)]
pub struct Pending {
    /// The verdict of the checker that the human is asked to confirm
    pub verdict: CheckResult,
    /// The candidate as a node of the search
    pub node: SearchNode,
}

/// How a search goes on after a step.
#[derive(Debug)]
pub enum SearchStep {
    /// Nothing to report: take the next step
    Continue,
    /// A human has to confirm what the checker found; show it, then call
    /// `answer`
    AskHuman(CheckResult),
    /// The search has an outcome
    Done(Result<Solution, SearchError>),
}

/// A search for the plaintext of one input.
pub struct Search {
    /// The text whose plaintext is sought
    input: String,
    /// The options of the search
    config: Config,
    /// The checker that judges the candidates
    checker: CheckerTypes,
    /// The decoders, in the order in which they are applied to a node
    registry: Vec<DecoderTypes>,
    /// The nodes that wait to be expanded
    queue: Vec<SearchNode>,
    /// Every text that was met: the input and each candidate
    seen: DashSet<String>,
    /// The clock of the search
    timer: Timer,
    /// How many steps the search may still take
    steps_left: u64,
    /// How often the checker was called
    checks: usize,
    /// No node has been served yet
    fresh: bool,
    /// The node that is being expanded
    current: Option<SearchNode>,
    /// The decoder to apply next to the node that is being expanded
    next_decoder: usize,
    /// The candidates that the decoder applied last has yielded
    batch: Vec<String>,
    /// The candidate of the batch to deal with next
    next_candidate: usize,
    /// The candidate that waits for the word of a human
    pending: Option<Pending>,
}

/// The records are a path with one more record.
pub proof fn lemma_path_view_push(path: Seq<CrackResult>, record: CrackResult)
    ensures
        path_view(path.push(record)) == path_view(path).push(record@),
{
    assert(path_view(path.push(record)) =~= path_view(path).push(record@));
}

/// A solution with the path `path` can be recorded in the cache of `db`:
/// there is room for one more record, and the JSON writer makes an array of
/// the texts of the path.
pub open spec fn storable(db: Database, path: Seq<CrackView>) -> bool {
    has_room(db) && json_candidates(Some(stored_texts(path))).is_some()
}

/// The solution was recorded in the cache for `input`, where it can be
/// recorded: then the cache table has one more record, which is about
/// `input`, stands for the solution and holds the JSON texts of its path.
/// Otherwise the cache table is as it was.
pub open spec fn recorded(before: Database, after: Database, input: Seq<char>, solution: SolutionView) -> bool {
    if storable(before, solution.path) {
        exists|record: CacheRecord|
            {
                &&& after.cache_table() == Some(
                    #[trigger] before.cache_table().unwrap().push(record),
                )
                &&& record.wf_at(before.cache_table().unwrap().len() as int)
                &&& record.row.encoded_text@ == input
                &&& solution_of(record) == solution
                &&& record.agrees()
            }
    } else {
        after.cache_table() == before.cache_table()
    }
}

/// The search is at its start for `input`: the input alone waits in the
/// queue, at depth 0 and before every other node; no node is being expanded;
/// and of all texts only the input was met.
pub open spec fn starts_at(s: Search, input: Seq<char>) -> bool {
    &&& s.queued().len() == 1
    &&& s.queued()[0].text@ == input
    &&& s.queued()[0].depth == 0
    &&& s.queued()[0].path@.len() == 0
    &&& s.queued()[0].priority == ROOT_PRIORITY
    &&& s.queued()[0].produced_by.is_none()
    &&& s.expanding().is_none()
    &&& forall|text: Seq<char>| #[trigger] s.has_seen(text) == (text == input)
}

/// The next step of the search serves a node from the queue: nobody is being
/// asked and no node is being expanded.
pub open spec fn is_serving(s: Search) -> bool {
    s.awaiting().is_none() && s.expanding().is_none()
}

/// The next step of the search, taken at the reading `now`, ends it with
/// `TimedOut`: a node is due, not the first one, steps are left, and the
/// clock shows no less than the budget of the options.
pub open spec fn times_out(s: Search, now: u64) -> bool {
    &&& is_serving(s)
    &&& !s.is_fresh()
    &&& s.remaining_steps() > 0
    &&& s.clock().elapsed_at(now) >= s.options().timeout_ms()
}

/// The next step of the search, taken at the reading `now`, ends it with
/// `Exhausted`: no step is left, or a node is due while there is time and the
/// queue is empty. The first node is served whatever the limits say.
pub open spec fn is_exhausted(s: Search, now: u64) -> bool {
    &&& s.awaiting().is_none()
    &&& !s.is_fresh()
    &&& {
        ||| s.remaining_steps() == 0
        ||| (s.expanding().is_none() && s.clock().elapsed_at(now) < s.options().timeout_ms()
            && s.queued().len() == 0)
    }
}

/// What has become of the node `node` that a step has served at the reading
/// `now`.
///
/// Where the cache can answer for its text, the step ends the search with
/// the plaintext of the cache record, reached by the path of the node
/// followed by the path of the record; the time is that of the record where
/// the node is the input, and that of the clock otherwise. Otherwise the search goes on, and the
/// node is the one that is being expanded now, with no decoder applied yet,
/// unless it lies as deep as the options allow: then it is dropped.
pub open spec fn served(
    before: Search,
    after: Search,
    db_before: Database,
    node: SearchNode,
    now: u64,
    step: SearchStep,
) -> bool {
    match db_before.usable(node.text@) {
        Some(record) => {
            &&& step matches SearchStep::Done(Ok(solution))
            &&& solution@.plaintext == record.row.decoded_text@
            &&& solution@.path == path_view(node.path@) + path_view(record.results@)
            &&& solution.elapsed_ms == if before.is_fresh() {
                reported_time(record.row.execution_time_ms)
            } else {
                reported_time(stored_time(before.clock().elapsed_at(now)))
            }
        },
        None => {
            &&& step is Continue
            &&& if node.depth < before.options().max_depth {
                &&& after.expanding() == Some(node)
                &&& after.decoder_position() == 0
                &&& after.candidate_position() == 0
                &&& after.batch_texts().len() == 0
            } else {
                after.expanding().is_none()
            }
        },
    }
}

/// The step has served the node that was due: the node with the highest
/// priority, the one that came first among equals, has left the queue, and
/// [`served`] says what has become of it.
pub open spec fn served_next(
    before: Search,
    after: Search,
    db_before: Database,
    now: u64,
    step: SearchStep,
) -> bool {
    exists|i: int|
        {
            &&& #[trigger] is_next(before.queued(), i)
            &&& after.queued() == before.queued().remove(i)
            &&& after.clock() == before.clock()
            &&& served(before, after, db_before, before.queued()[i], now, step)
        }
}

/// The record that is written for the candidates `candidates` that `decoder`
/// has yielded for `text`, with the verdict `verdict` on one of them.
pub open spec fn record_of(
    decoder: DecoderTypes,
    text: Seq<char>,
    candidates: Seq<Seq<char>>,
    verdict: CheckResult,
) -> CrackView {
    CrackView {
        success: verdict.is_identified,
        encrypted_text: text,
        unencrypted_text: Some(candidates),
        decoder: decoder.descriptor().name,
        checker_name: verdict.checker_name@,
        checker_description: verdict.checker_description@,
        key: None,
        description: decoder.descriptor().description,
        link: decoder.descriptor().link,
    }
}

/// The node `child` is the child of `node` for the candidate `candidate`,
/// one of the `candidates` that `decoder` has yielded for the text of `node`,
/// on which the checker gave the verdict `verdict`: one level deeper, with
/// the path of `node` and the record of this attempt, and with the score of
/// [`score`].
pub open spec fn is_child(
    child: SearchNode,
    node: SearchNode,
    decoder: DecoderTypes,
    candidates: Seq<Seq<char>>,
    candidate: Seq<char>,
    verdict: CheckResult,
) -> bool {
    &&& child.text@ == candidate
    &&& child.depth == node.depth + 1
    &&& path_view(child.path@) == path_view(node.path@).push(
        record_of(decoder, node.text@, candidates, verdict),
    )
    &&& child.produced_by == Some(decoder.family())
    &&& child.priority == score(
        decoder.descriptor().popularity,
        child.depth as nat,
        akin(node.produced_by, decoder.family()),
        identified_format(candidate, true).is_some(),
    )
}

/// The node `child` was kept for later: it was put into the queue, which
/// holds no more nodes than the options allow, see [`enqueued`]; a node that
/// lies deeper than the options allow was dropped.
pub open spec fn kept_in(before: Search, after: Search, child: SearchNode) -> bool {
    if child.depth <= before.options().max_depth {
        enqueued(before.queued(), after.queued(), child, before.options().max_queue)
    } else {
        after.queued() == before.queued()
    }
}

/// What a step at the reading `now` has done with a candidate `candidate`
/// that was new, given the verdict `verdict` of the checker on it and the node
/// `child` made of it.
///
/// A candidate that the checker has identified, and that no human has
/// refused according to the store, goes to the human checker, which stops
/// the clock and remembers the prompt: confirmed, it is the solution, with
/// the time that the clock shows; to be asked about, it waits, and the clock
/// stands still; refused, it is kept for later like any candidate that was
/// not identified.
pub open spec fn dealt_with(
    before: Search,
    after: Search,
    db_before: Database,
    seen_before: SeenPrompts,
    seen_after: SeenPrompts,
    node: SearchNode,
    candidate: Seq<char>,
    verdict: CheckResult,
    child: SearchNode,
    now: u64,
    step: SearchStep,
) -> bool {
    let decoder = before.decoders()[before.decoder_position() - 1];
    &&& before.active_checker().check_post(candidate, verdict)
    &&& is_child(child, node, decoder, before.batch_texts(), candidate, verdict)
    &&& if verdict.is_identified && !db_before.refused(candidate, verdict.checker_name@) {
        &&& seen_after.refused_keys() == seen_before.refused_keys()
        &&& seen_after.asked_keys() == if before.options().asks_human() {
            seen_before.asked_keys().insert(prompt_key(verdict))
        } else {
            seen_before.asked_keys()
        }
        &&& match human_decision(before.options(), seen_before, verdict) {
            HumanDecision::Confirmed => {
                &&& step matches SearchStep::Done(Ok(solution))
                &&& solution@.plaintext == candidate
                &&& solution@.path == path_view(child.path@)
                &&& solution.elapsed_ms == reported_time(
                    stored_time(after.clock().elapsed_at(now)),
                )
                &&& after.queued() == before.queued()
                &&& after.clock() == before.clock().after_pause(now).after_resume(now)
            },
            HumanDecision::Ask => {
                &&& step matches SearchStep::AskHuman(shown)
                &&& shown@ == verdict@
                &&& after.waiting() == Some(child)
                &&& after.queued() == before.queued()
                &&& after.clock() == before.clock().after_pause(now)
            },
            HumanDecision::Refused => {
                &&& step is Continue
                &&& kept_in(before, after, child)
                &&& after.clock() == before.clock().after_pause(now).after_resume(now)
            },
        }
    } else {
        &&& step is Continue
        &&& kept_in(before, after, child)
        &&& after.clock() == before.clock()
        &&& seen_after == seen_before
    }
}

/// What a step does while the node `node` is being expanded and steps are
/// left.
///
/// Where the candidates of the last decoder are used up, the next decoder is
/// applied to the text of the node and its candidates become the batch; where
/// no decoder is left, the node is done with. Otherwise the next candidate of
/// the batch is dealt with: one that was met before is passed over; one that
/// is new is counted, judged by the checker, and dealt with as
/// [`dealt_with`] says.
pub open spec fn expanded(
    before: Search,
    after: Search,
    db_before: Database,
    seen_before: SeenPrompts,
    seen_after: SeenPrompts,
    node: SearchNode,
    now: u64,
    step: SearchStep,
) -> bool {
    let j = before.candidate_position() as int;
    let k = before.decoder_position() as int;
    if j >= before.batch_texts().len() {
        &&& step is Continue
        &&& after.queued() == before.queued()
        &&& after.unique_candidates() == before.unique_candidates()
        &&& after.clock() == before.clock()
        &&& seen_after == seen_before
        &&& if k >= before.decoders().len() {
            after.expanding().is_none()
        } else {
            &&& after.expanding() == Some(node)
            &&& after.decoder_position() == k + 1
            &&& after.candidate_position() == 0
            &&& after.batch_texts() == match family_candidates(
                before.decoders()[k].family(),
                node.text@,
            ) {
                Some(list) => list,
                None => Seq::empty(),
            }
        }
    } else {
        let candidate = before.batch_texts()[j];
        &&& after.expanding() == Some(node)
        &&& after.decoder_position() == k
        &&& after.candidate_position() == j + 1
        &&& after.batch_texts() == before.batch_texts()
        &&& if before.has_seen(candidate) || node.depth == usize::MAX {
            &&& step is Continue
            &&& after.queued() == before.queued()
            &&& after.unique_candidates() == before.unique_candidates()
            &&& after.clock() == before.clock()
            &&& seen_after == seen_before
        } else {
            &&& after.unique_candidates() == before.unique_candidates() + 1
            &&& after.has_seen(candidate)
            &&& exists|verdict: CheckResult, child: SearchNode| #[trigger]
                dealt_with(
                    before,
                    after,
                    db_before,
                    seen_before,
                    seen_after,
                    node,
                    candidate,
                    verdict,
                    child,
                    now,
                    step,
                )
        }
    }
}

/// What an answer does with the candidate `node` that waited, about which
/// `shown` was shown.
///
/// The clock is resumed. A yes makes the candidate the solution, with the
/// time that the clock shows, unless the store says that it was refused.
/// Otherwise the candidate is kept for later and the search goes on. A reply
/// that is no yes is remembered and written to the store as a refusal; a
/// prompt that failed is not.
pub open spec fn answered(
    before: Search,
    after: Search,
    db_before: Database,
    db_after: Database,
    seen_before: SeenPrompts,
    seen_after: SeenPrompts,
    reply: Option<&str>,
    shown: CheckResult,
    node: SearchNode,
    now: u64,
    step: SearchStep,
) -> bool {
    let yes = reply.is_some() && means_yes(reply.unwrap()@);
    &&& after.clock() == before.clock().after_resume(now)
    &&& seen_after.asked_keys() == seen_before.asked_keys()
    &&& if reply.is_some() && !yes {
        &&& seen_after.refused_keys() == seen_before.refused_keys().insert(prompt_key(shown))
        &&& refusal_recorded(db_before, db_after, shown)
    } else {
        &&& seen_after.refused_keys() == seen_before.refused_keys()
        &&& db_after.failed_table() == db_before.failed_table()
    }
    &&& if yes && !db_before.refused(shown.text@, shown.checker_name@) {
        &&& step matches SearchStep::Done(Ok(solution))
        &&& solution@.plaintext == shown.text@
        &&& solution@.path == path_view(node.path@)
        &&& solution.elapsed_ms == reported_time(stored_time(after.clock().elapsed_at(now)))
        &&& after.queued() == before.queued()
    } else {
        &&& step is Continue
        &&& kept_in(before, after, node)
    }
}

/// What a step, or an answer, owes: the search `before` has become `after`,
/// the store `db_before` has become `db_after`, and `step` was handed out.
///
/// The search stays about its input and with its checker, and the checker
/// has been called once for every candidate that was new. The store loses
/// nothing, and stays sound if it was. Only a solution is written to the
/// cache. A human is asked only where the options say so, about a text that
/// the checker has identified, and the clock stands still while the answer
/// is awaited. A solution is never one that a human has refused; it is sound
/// where the store was sound; and a search that has served no node yet
/// answers from the cache whenever the cache can answer, and then leaves the
/// store alone.
pub open spec fn step_post(
    before: Search,
    after: Search,
    db_before: Database,
    db_after: Database,
    now: u64,
    step: SearchStep,
) -> bool {
    let input = before.input_text();
    let checker = before.active_checker();
    &&& after.wf()
    &&& db_after.wf()
    &&& after.input_text() == input
    &&& after.active_checker() == checker
    &&& after.options() == before.options()
    &&& after.checker_invocations() == after.unique_candidates()
    &&& after.remaining_steps() <= before.remaining_steps()
    &&& (store_sound(db_before, checker) ==> store_sound(db_after, checker))
    &&& match step {
        SearchStep::Continue => {
            &&& db_after.cache_table() == db_before.cache_table()
            &&& after.awaiting().is_none()
        },
        SearchStep::AskHuman(verdict) => {
            &&& db_after.cache_table() == db_before.cache_table()
            &&& after.awaiting() matches Some(shown)
            &&& shown@ == verdict@
            &&& verdict.is_identified
            &&& checker.accepts(verdict.text@)
            &&& after.options().asks_human()
            &&& after.clock().paused()
        },
        SearchStep::Done(Err(e)) => {
            &&& db_after.cache_table() == db_before.cache_table()
            &&& after.awaiting().is_none()
            &&& (e is TimedOut || e is Exhausted)
        },
        SearchStep::Done(Ok(solution)) => {
            &&& after.awaiting().is_none()
            &&& solution@.path.len() > 0
            &&& !db_after.refused(solution@.plaintext, identified_by(solution@.path))
            &&& (store_sound(db_before, checker) ==> sound(solution@, input, checker))
            &&& if before.is_fresh() {
                &&& db_before.usable(input) matches Some(record)
                &&& solution@ == solution_of(record)
                &&& db_after.cache_table() == db_before.cache_table()
            } else {
                recorded(db_before, db_after, input, solution@)
            }
        },
    }
}

/// Every decoder of the list is described as its family is.
pub open spec fn all_wf(decoders: Seq<DecoderTypes>) -> bool {
    forall|i: int| 0 <= i < decoders.len() ==> (#[trigger] decoders[i]).wf()
}

impl Search {
    /// The text whose plaintext is sought.
    pub closed spec fn input_text(&self) -> Seq<char> {
        self.input@
    }

    /// The checker that judges the candidates.
    pub closed spec fn active_checker(&self) -> CheckerTypes {
        self.checker
    }

    /// The options of the search.
    pub closed spec fn options(&self) -> Config {
        self.config
    }

    /// The clock of the search.
    pub closed spec fn clock(&self) -> Timer {
        self.timer
    }

    /// How often the checker was called.
    pub closed spec fn checker_invocations(&self) -> nat {
        self.checks as nat
    }

    /// How many different candidates the decoders have produced.
    pub closed spec fn unique_candidates(&self) -> nat {
        if set_keys(self.seen).len() > 0 {
            (set_keys(self.seen).len() - 1) as nat
        } else {
            0
        }
    }

    /// No node has been served yet.
    pub closed spec fn is_fresh(&self) -> bool {
        self.fresh
    }

    /// How many steps the search may still take.
    pub closed spec fn remaining_steps(&self) -> u64 {
        self.steps_left
    }

    /// The nodes that wait to be expanded, in the order in which they came.
    pub closed spec fn queued(&self) -> Seq<SearchNode> {
        self.queue@
    }

    /// The node that is being expanded.
    pub closed spec fn expanding(&self) -> Option<SearchNode> {
        self.current
    }

    /// The decoders of the search, in the order in which they are applied.
    pub closed spec fn decoders(&self) -> Seq<DecoderTypes> {
        self.registry@
    }

    /// How many decoders have been applied to the node that is being
    /// expanded.
    pub closed spec fn decoder_position(&self) -> nat {
        self.next_decoder as nat
    }

    /// The candidates that the decoder applied last has yielded.
    pub closed spec fn batch_texts(&self) -> Seq<Seq<char>> {
        self.batch.deep_view()
    }

    /// How many candidates of the batch have been dealt with.
    pub closed spec fn candidate_position(&self) -> nat {
        self.next_candidate as nat
    }

    /// The text was met before: it is the input or a candidate that a decoder
    /// has yielded.
    pub closed spec fn has_seen(&self, text: Seq<char>) -> bool {
        set_keys(self.seen).contains(text)
    }

    /// The candidate that waits for the word of a human, as a node.
    pub closed spec fn waiting(&self) -> Option<SearchNode> {
        match self.pending {
            Some(p) => Some(p.node),
            None => None,
        }
    }

    /// The verdict that waits for the word of a human.
    pub closed spec fn awaiting(&self) -> Option<CheckResult> {
        match self.pending {
            Some(p) => Some(p.verdict),
            None => None,
        }
    }

    /// The path of the node leads from the input to its text, and its depth
    /// is the length of its path.
    pub closed spec fn node_ok(&self, node: SearchNode) -> bool {
        &&& links(path_view(node.path@), self.input@, node.text@)
        &&& node.depth == node.path@.len()
    }

    /// The candidate that waits for a human is one that the checker
    /// identified, and the verdict that is shown is the one about it.
    pub closed spec fn pending_ok(&self, pending: Pending) -> bool {
        &&& self.node_ok(pending.node)
        &&& pending.node.path@.len() > 0
        &&& pending.node.path@.last().success
        &&& pending.node.path@.last().checker_name@ == pending.verdict.checker_name@
        &&& pending.verdict.text@ == pending.node.text@
        &&& pending.verdict.is_identified
        &&& self.checker.accepts(pending.node.text@)
        &&& self.config.asks_human()
        &&& self.timer.paused()
    }

    /// The state of the search is consistent.
    pub closed spec fn wf(&self) -> bool {
        &&& self.input@.len() > 0
        &&& all_wf(self.registry@)
        &&& forall|i: int| 0 <= i < self.queue@.len() ==> self.node_ok(#[trigger] self.queue@[i])
        &&& (self.current matches Some(node) ==> self.node_ok(node))
        &&& self.next_decoder <= self.registry@.len()
        &&& self.next_candidate <= self.batch@.len()
        &&& (self.current matches Some(node) ==> (self.next_candidate < self.batch@.len() ==> {
            &&& self.next_decoder > 0
            &&& Some(self.batch.deep_view()) == family_candidates(
                self.registry@[self.next_decoder - 1].family(),
                node.text@,
            )
        }))
        &&& (self.pending matches Some(pending) ==> self.pending_ok(pending))
        &&& set_keys(self.seen).finite()
        &&& set_keys(self.seen).contains(self.input@)
        &&& self.checks + 1 == set_keys(self.seen).len()
        &&& (self.fresh ==> {
            &&& self.queue@.len() == 1
            &&& self.queue@[0].text@ == self.input@
            &&& self.queue@[0].path@.len() == 0
            &&& self.current.is_none()
            &&& self.pending.is_none()
        })
    }

    /// Dedup: the checker is never called more often than there are different
    /// candidates. It is called once for each.
    pub proof fn lemma_checks_bounded(&self)
        requires
            self.wf(),
        ensures
            self.checker_invocations() <= self.unique_candidates(),
            self.checker_invocations() == self.unique_candidates(),
    {
    }

    /// Sets a search up for `input` with the decoders of the registry, with
    /// the clock started at the reading `now`. An empty input is refused,
    /// and nothing else is.
    pub fn new(input: &str, config: Config, checker: CheckerTypes, now: u64) -> (r: Result<
        Search,
        SearchError,
    >)
        ensures
            r.is_err() == (input@.len() == 0),
            r matches Err(e) ==> e matches SearchError::InvalidInput,
            r matches Ok(s) ==> {
                &&& s.wf()
                &&& s.input_text() == input@
                &&& s.active_checker() == checker
                &&& s.options() == config
                &&& s.is_fresh()
                &&& s.awaiting().is_none()
                &&& s.checker_invocations() == 0
                &&& s.unique_candidates() == 0
                &&& s.remaining_steps() == config.max_steps
                &&& s.clock() == (Timer { accumulated: 0, running_since: now, pause_depth: 0 })
                &&& is_registry(s.decoders())
                &&& starts_at(s, input@)
            },
    {
        Search::with_registry(input, config, checker, registry(), now)
    }

    /// Sets a search up for `input` with the decoders `decoders`, which are
    /// applied to every node in the order of the list, with the clock started
    /// at the reading `now`. An empty input is refused, and nothing else is.
    pub fn with_registry(
        input: &str,
        config: Config,
        checker: CheckerTypes,
        decoders: Vec<DecoderTypes>,
        now: u64,
    ) -> (r: Result<Search, SearchError>)
        requires
            all_wf(decoders@),
        ensures
            r.is_err() == (input@.len() == 0),
            r matches Err(e) ==> e matches SearchError::InvalidInput,
            r matches Ok(s) ==> {
                &&& s.wf()
                &&& s.input_text() == input@
                &&& s.active_checker() == checker
                &&& s.options() == config
                &&& s.is_fresh()
                &&& s.awaiting().is_none()
                &&& s.checker_invocations() == 0
                &&& s.unique_candidates() == 0
                &&& s.remaining_steps() == config.max_steps
                &&& s.clock() == (Timer { accumulated: 0, running_since: now, pause_depth: 0 })
                &&& s.decoders() == decoders@
                &&& starts_at(s, input@)
            },
    {
        if input.is_empty() {
            return Err(SearchError::InvalidInput);
        }
        let root = SearchNode {
            text: input.to_owned(),
            path: Vec::new(),
            depth: 0,
            priority: ROOT_PRIORITY,
            produced_by: None,
        };
        let mut queue: Vec<SearchNode> = Vec::new();
        queue.push(root);
        let mut seen = new_set();
        let _ = set_insert(&mut seen, input.to_owned());
        let steps_left = config.max_steps;
        let s = Search {
            input: input.to_owned(),
            config,
            checker,
            registry: decoders,
            queue,
            seen,
            timer: Timer::start(now),
            steps_left,
            checks: 0,
            fresh: true,
            current: None,
            next_decoder: 0,
            batch: Vec::new(),
            next_candidate: 0,
            pending: None,
        };
        proof {
            assert(path_view(s.queue@[0].path@) =~= Seq::<CrackView>::empty());
        }
        Ok(s)
    }

    /// How often the checker was called so far.
    pub fn checker_calls(&self) -> (n: usize)
        ensures
            n == self.checker_invocations(),
    {
        self.checks
    }

    /// How many different candidates the decoders have produced so far.
    pub fn candidates_seen(&self) -> (n: usize)
        ensures
            n == self.unique_candidates(),
    {
        let met = set_len(&self.seen);
        if met > 0 {
            met - 1
        } else {
            0
        }
    }

    /// The most promising chain that has not been followed yet: the node that
    /// the search would serve next. None where the queue is empty.
    pub fn best_known(&self) -> (r: Option<&SearchNode>)
        ensures
            r.is_none() == (self.queued().len() == 0),
            r matches Some(node) ==> exists|i: int|
                #[trigger] is_next(self.queued(), i) && *node == self.queued()[i],
    {
        if self.queue.len() == 0 {
            None
        } else {
            let i = next_index(&self.queue);
            Some(&self.queue[i])
        }
    }

    /// The time the search has taken at the reading `now`, in milliseconds.
    pub fn elapsed(&self, now: u64) -> (ms: u64)
        ensures
            ms == self.clock().elapsed_at(now),
    {
        self.timer.elapsed(now)
    }

    /// Makes the solution out of a plaintext and the path that leads to it,
    /// and records it in the cache.
    fn finish(&self, db: &mut Database, plaintext: String, path: Vec<CrackResult>, now: u64) -> (solution:
        Solution)
        requires
            self.wf(),
            old(db).wf(),
        ensures
            final(db).wf(),
            final(db).failed_table() == old(db).failed_table(),
            solution@.plaintext == plaintext@,
            solution@.path == path_view(path@),
            solution.elapsed_ms == reported_time(stored_time(self.timer.elapsed_at(now))),
            recorded(*old(db), *final(db), self.input@, solution@),
            store_sound(*old(db), self.checker) && sound(solution@, self.input@, self.checker)
                ==> store_sound(*final(db), self.checker),
    {
        let elapsed = self.timer.elapsed(now);
        let kept_time: i64 = if elapsed <= i64::MAX as u64 {
            elapsed as i64
        } else {
            i64::MAX
        };
        let entry = CacheEntry {
            encoded_text: self.input.clone(),
            decoded_text: plaintext.clone(),
            path: copy_path(&path),
            execution_time_ms: kept_time,
        };
        let _ = insert_cache(db, &entry);
        let solution = Solution { plaintext, path, elapsed_ms: kept_time as u64 };
        proof {
            let before = old(db).cache_table();
            assert(path_view(entry.path@) == solution@.path);
            assert(can_insert(*old(db), entry) == storable(*old(db), solution@.path));
            if can_insert(*old(db), entry) {
                let records = before.unwrap();
                let (record, timestamp) = choose|record: CacheRecord, timestamp: Seq<char>|
                    {
                        &&& db.cache_table() == Some(#[trigger] records.push(record))
                        &&& #[trigger] inserted(record, entry, timestamp, records.len() as int)
                        &&& record.agrees()
                    };
                assert(solution_of(record) == solution@);
                if store_sound(*old(db), self.checker) && sound(
                    solution@,
                    self.input@,
                    self.checker,
                ) {
                    assert forall|i: int| 0 <= i < records.push(record).len() implies sound(
                        solution_of(#[trigger] records.push(record)[i]),
                        records.push(record)[i].row.encoded_text@,
                        self.checker,
                    ) by {
                        if i < records.len() {
                            assert(records.push(record)[i] == records[i]);
                        }
                    }
                }
            }
        }
        solution
    }

    /// Puts a node into the queue, which holds no more nodes than the options
    /// allow, see [`enqueued`]; a node that lies deeper than the options allow
    /// is dropped. Nothing else changes.
    fn keep(&mut self, node: SearchNode)
        requires
            old(self).wf(),
            old(self).node_ok(node),
            !old(self).fresh,
        ensures
            final(self).wf(),
            if node.depth <= old(self).config.max_depth {
                enqueued(old(self).queue@, final(self).queue@, node, old(self).config.max_queue)
            } else {
                final(self).queue@ == old(self).queue@
            },
            final(self).input == old(self).input,
            final(self).config == old(self).config,
            final(self).checker == old(self).checker,
            final(self).timer == old(self).timer,
            final(self).steps_left == old(self).steps_left,
            final(self).checks == old(self).checks,
            final(self).seen == old(self).seen,
            final(self).fresh == old(self).fresh,
            final(self).current == old(self).current,
            final(self).next_decoder == old(self).next_decoder,
            final(self).batch == old(self).batch,
            final(self).next_candidate == old(self).next_candidate,
            final(self).registry == old(self).registry,
            final(self).pending == old(self).pending,
    {
        if node.depth <= self.config.max_depth {
            let limit = self.config.max_queue;
            let ghost before = self.queue@;
            enqueue(&mut self.queue, node, limit);
            proof {
                assert forall|i: int| 0 <= i < self.queue@.len() implies self.node_ok(
                    #[trigger] self.queue@[i],
                ) by {
                    if self.queue@[i] != node {
                        assert(before.contains(self.queue@[i]));
                        let j = choose|j: int| 0 <= j < before.len() && before[j] == self.queue@[i];
                        assert(old(self).node_ok(before[j]));
                    }
                }
            }
        }
    }

    /// A copy of `first` followed by a copy of `second`.
    fn join_paths(first: &Vec<CrackResult>, second: &Vec<CrackResult>) -> (joined: Vec<CrackResult>)
        ensures
            path_view(joined@) == path_view(first@) + path_view(second@),
    {
        let mut joined = copy_path(first);
        let ghost start = joined@;
        let mut i: usize = 0;
        while i < second.len()
            invariant
                i <= second.len(),
                joined@.len() == start.len() + i,
                path_view(start) == path_view(first@),
                forall|k: int| 0 <= k < start.len() ==> joined@[k] == start[k],
                forall|k: int| 0 <= k < i ==> (#[trigger] joined@[start.len() + k])@ == second@[k]@,
            decreases second.len() - i,
        {
            joined.push(second[i].duplicate());
            i += 1;
        }
        proof {
            assert(path_view(start).len() == path_view(first@).len());
            assert forall|k: int| 0 <= k < joined@.len() implies path_view(joined@)[k] == (
            path_view(first@) + path_view(second@))[k] by {
                if k < start.len() {
                    assert(path_view(start)[k] == path_view(first@)[k]);
                } else {
                    assert(joined@[start.len() + (k - start.len())]@ == second@[k - start.len()]@);
                }
            }
            assert(path_view(joined@) =~= path_view(first@) + path_view(second@));
        }
        joined
    }

    /// Serves the next node of the queue: answers it from the cache where the
    /// cache can answer, and makes it the node to expand otherwise.
    fn serve(&mut self, db: &mut Database, now: u64) -> (step: SearchStep)
        requires
            old(self).wf(),
            old(db).wf(),
            old(self).current.is_none(),
            old(self).pending.is_none(),
        ensures
            step_post(*old(self), *final(self), *old(db), *final(db), now, step),
            final(db).failed_table() == old(db).failed_table(),
            final(self).timer == old(self).timer,
            !old(self).fresh ==> final(self).steps_left < old(self).steps_left || step is Done,
            !final(self).fresh || step is Done,
            old(self).fresh && old(db).usable(old(self).input@).is_none() ==> step is Continue,
            old(self).fresh && old(db).usable(old(self).input@).is_some()
                ==> step matches SearchStep::Done(Ok(_)),
            step matches SearchStep::Done(Err(SearchError::TimedOut)) == times_out(*old(self), now),
            step matches SearchStep::Done(Err(SearchError::Exhausted)) == is_exhausted(
                *old(self),
                now,
            ),
            !(step matches SearchStep::Done(Err(_))) ==> served_next(
                *old(self),
                *final(self),
                *old(db),
                now,
                step,
            ),
    {
        let was_fresh = self.fresh;
        if !was_fresh {
            if self.steps_left == 0 {
                return SearchStep::Done(Err(SearchError::Exhausted));
            }
            if self.timer.elapsed(now) >= self.config.timeout_millis() {
                return SearchStep::Done(Err(SearchError::TimedOut));
            }
            self.steps_left = self.steps_left - 1;
        }
        let ghost queued = self.queue@;
        let node = match dequeue(&mut self.queue) {
            None => {
                return SearchStep::Done(Err(SearchError::Exhausted));
            },
            Some(node) => node,
        };
        let ghost at = choose|i: int|
            {
                &&& #[trigger] is_next(queued, i)
                &&& node == queued[i]
                &&& self.queue@ == queued.remove(i)
            };
        proof {
            let i = at;
            assert(old(self).node_ok(queued[i]));
            assert forall|k: int| 0 <= k < self.queue@.len() implies self.node_ok(
                #[trigger] self.queue@[k],
            ) by {
                if k < i {
                    assert(self.queue@[k] == queued[k]);
                } else {
                    assert(self.queue@[k] == queued[k + 1]);
                }
                assert(old(self).node_ok(self.queue@[k]));
            }
            if was_fresh {
                assert(i == 0);
            }
        }
        self.fresh = false;
        assert(self.node_ok(node));
        let ghost due = node;
        let step = match db.find_usable(node.text.as_str()) {
            Some(record) => {
                let plaintext = record.row.decoded_text.clone();
                let path = Self::join_paths(&node.path, &record.results);
                let ghost found = *record;
                proof {
                    assert(db.answers(node.text@)(found)) by {
                        let records = db.cache_table().unwrap();
                        lemma_first_index(
                            records,
                            records.len() as int,
                            db.answers(node.text@),
                        );
                    }
                    assert(path_view(path@).last() == path_view(found.results@).last());
                    assert(identified_by(path_view(path@)) == identified_by(
                        path_view(found.results@),
                    ));
                    if store_sound(*db, self.checker) {
                        let records = db.cache_table().unwrap();
                        lemma_first_index(
                            records,
                            records.len() as int,
                            db.answers(node.text@),
                        );
                        let at = first_match(records, db.answers(node.text@)).unwrap();
                        assert(records[at] == found);
                        assert(sound(solution_of(found), found.row.encoded_text@, self.checker));
                        lemma_links_join(
                            path_view(node.path@),
                            path_view(found.results@),
                            self.input@,
                            node.text@,
                            plaintext@,
                        );
                    }
                }
                if was_fresh {
                    let elapsed_ms: u64 = if record.row.execution_time_ms >= 0 {
                        record.row.execution_time_ms as u64
                    } else {
                        0
                    };
                    let solution = Solution { plaintext, path, elapsed_ms };
                    proof {
                        assert(path_view(node.path@) =~= Seq::<CrackView>::empty());
                        assert(solution@.path =~= path_view(found.results@));
                    }
                    SearchStep::Done(Ok(solution))
                } else {
                    let solution = self.finish(db, plaintext, path, now);
                    SearchStep::Done(Ok(solution))
                }
            },
            None => {
                if node.depth < self.config.max_depth {
                    self.current = Some(node);
                    self.next_decoder = 0;
                    self.batch = Vec::new();
                    self.next_candidate = 0;
                }
                SearchStep::Continue
            },
        };
        proof {
            assert(is_next(old(self).queued(), at));
            assert(served(*old(self), *self, *old(db), due, now, step));
        }
        step
    }

    /// Applies the next decoder to the node that is being expanded, or deals
    /// with the next candidate that the decoder has yielded, see
    /// [`expanded`].
    fn expand(&mut self, db: &mut Database, seen_prompts: &mut SeenPrompts, now: u64) -> (step:
        SearchStep)
        requires
            old(self).wf(),
            old(db).wf(),
            old(self).current.is_some(),
            old(self).pending.is_none(),
        ensures
            step_post(*old(self), *final(self), *old(db), *final(db), now, step),
            final(db).failed_table() == old(db).failed_table(),
            final(self).steps_left < old(self).steps_left || step is Done,
            !final(self).fresh,
            !(step matches SearchStep::Done(Err(SearchError::TimedOut))),
            step matches SearchStep::Done(Err(SearchError::Exhausted)) == (old(self).steps_left
                == 0),
            old(self).steps_left > 0 ==> expanded(
                *old(self),
                *final(self),
                *old(db),
                *old(seen_prompts),
                *final(seen_prompts),
                old(self).current.unwrap(),
                now,
                step,
            ),
            old(self).steps_left == 0 ==> *final(seen_prompts) == *old(seen_prompts),
    {
        assert(!self.fresh);
        if self.steps_left == 0 {
            return SearchStep::Done(Err(SearchError::Exhausted));
        }
        self.steps_left = self.steps_left - 1;
        let node = match self.current.take() {
            Some(node) => node,
            None => {
                return SearchStep::Continue;
            },
        };
        let ghost this = node;
        assert(self.node_ok(node));
        if self.next_candidate >= self.batch.len() {
            // The candidates of the last decoder are dealt with: apply the
            // next one, if one is left
            if self.next_decoder >= self.registry.len() {
                let step = SearchStep::Continue;
                assert(expanded(
                *old(self),
                *self,
                *old(db),
                *old(seen_prompts),
                *seen_prompts,
                this,
                now,
                step,
            ));
                return step;
            }
            let k = self.next_decoder;
            self.next_decoder = k + 1;
            self.next_candidate = 0;
            let yielded = self.registry[k].attempt(node.text.as_str());
            let ghost wanted = family_candidates(self.registry@[k as int].family(), node.text@);
            assert(texts_view(yielded) == wanted);
            self.batch = match yielded {
                None => Vec::new(),
                Some(list) => list,
            };
            self.current = Some(node);
            let step = SearchStep::Continue;
            proof {
                assert(self.batch_texts() =~= match wanted {
                    Some(list) => list,
                    None => Seq::empty(),
                });
                assert(self.decoder_position() == old(self).decoder_position() + 1);
                assert(self.candidate_position() == 0);
                assert(self.expanding() == Some(this));
                assert(self.queued() == old(self).queued());
                assert(self.unique_candidates() == old(self).unique_candidates());
                assert(old(self).decoders() == self.registry@);
            }
            assert(expanded(
                *old(self),
                *self,
                *old(db),
                *old(seen_prompts),
                *seen_prompts,
                this,
                now,
                step,
            ));
            return step;
        }
        let k = self.next_decoder - 1;
        let j = self.next_candidate;
        self.next_candidate = j + 1;
        let child = self.batch[j].clone();
        let ghost candidate = child@;
        assert(candidate == old(self).batch_texts()[j as int]);
        let met = set_contains(&self.seen, &child);
        assert(met == old(self).has_seen(candidate));
        assert(this.depth == node.path@.len());
        if met || node.path.len() >= usize::MAX {
            self.current = Some(node);
            let step = SearchStep::Continue;
            assert(old(self).has_seen(candidate) || this.depth == usize::MAX);
            assert(expanded(
                *old(self),
                *self,
                *old(db),
                *old(seen_prompts),
                *seen_prompts,
                this,
                now,
                step,
            ));
            return step;
        }
        assert(!(old(self).has_seen(candidate) || this.depth == usize::MAX));
        let _ = set_insert(&mut self.seen, child.clone());
        let candidates = set_len(&self.seen);
        let verdict = self.checker.check(child.as_str());
        assert(self.checks < candidates);
        self.checks = self.checks + 1;
        let family = self.registry[k].get_family();
        let record = self.registry[k].record(node.text.as_str(), copy_texts(&self.batch), &verdict);
        let mut path = copy_path(&node.path);
        let ghost prefix = path@;
        path.push(record);
        let affinity = match node.produced_by {
            Some(parent) => family_is_base(parent) && family_is_base(family),
            None => false,
        };
        let partial_format = identify_format(child.as_str(), true).is_some();
        let depth = path.len();
        let priority = compute_score(
            self.registry[k].get_popularity(),
            depth,
            affinity,
            partial_format,
        );
        let refused = db.has_refused(child.as_str(), verdict.checker_name);
        let child_node = SearchNode { text: child, path, depth, priority, produced_by: Some(family) };
        let ghost judged = verdict;
        let ghost made = child_node;
        proof {
            assert(self.registry@[k as int].wf());
            assert(record@.unencrypted_text == Some(self.batch.deep_view()));
            assert(produced_by(family, record@));
            assert(step_ok(record@));
            assert(self.batch.deep_view()[j as int] == child_node.text@);
            lemma_path_view_push(prefix, record);
            assert(path_view(prefix) == path_view(node.path@));
            lemma_links_push(path_view(node.path@), self.input@, record@, child_node.text@);
            assert(self.node_ok(child_node));
            assert(path_view(child_node.path@).last() == record@);
            assert(child_node.path@.last() == record);
            assert(path_view(prefix).len() == path_view(node.path@).len());
            assert(record@ == record_of(
                self.registry@[k as int],
                node.text@,
                old(self).batch_texts(),
                verdict,
            ));
            assert(is_child(
                made,
                this,
                self.registry@[k as int],
                old(self).batch_texts(),
                candidate,
                judged,
            ));
            assert(self.has_seen(candidate));
        }
        self.current = Some(node);
        let step = if verdict.is_identified && !refused {
            let decision = human_checker(&verdict, &self.config, seen_prompts, &mut self.timer, now);
            match decision {
                HumanDecision::Confirmed => {
                    let solution = self.finish(db, child_node.text, child_node.path, now);
                    SearchStep::Done(Ok(solution))
                },
                HumanDecision::Ask => {
                    let shown = verdict.duplicate();
                    self.pending = Some(Pending { verdict, node: child_node });
                    SearchStep::AskHuman(shown)
                },
                HumanDecision::Refused => {
                    self.keep(child_node);
                    SearchStep::Continue
                },
            }
        } else {
            self.keep(child_node);
            SearchStep::Continue
        };
        proof {
            assert(dealt_with(
                *old(self),
                *self,
                *old(db),
                *old(seen_prompts),
                *seen_prompts,
                this,
                candidate,
                judged,
                made,
                now,
                step,
            ));
            assert(self.unique_candidates() == old(self).unique_candidates() + 1);
            assert(self.has_seen(candidate));
            assert(self.expanding() == Some(this));
            assert(self.batch_texts() == old(self).batch_texts());
            assert(expanded(
                *old(self),
                *self,
                *old(db),
                *old(seen_prompts),
                *seen_prompts,
                this,
                now,
                step,
            ));
        }
        step
    }

    /// Takes one step: serves the next node of the queue, or applies the next
    /// decoder to the node that is being expanded, or deals with the next
    /// candidate that the decoder has yielded. While a candidate waits for
    /// the word of a human, the step only hands out the prompt again.
    ///
    /// The step ends the search without a solution exactly where
    /// [`times_out`] and [`is_exhausted`] say so. The node that it serves is
    /// the one with the highest priority, first in, first out among equals.
    pub fn step(&mut self, db: &mut Database, seen_prompts: &mut SeenPrompts, now: u64) -> (step:
        SearchStep)
        requires
            old(self).wf(),
            old(db).wf(),
        ensures
            step_post(*old(self), *final(self), *old(db), *final(db), now, step),
            final(db).failed_table() == old(db).failed_table(),
            old(self).awaiting().is_some() ==> step is AskHuman && *final(self) == *old(self)
                && final(db).cache_table() == old(db).cache_table(),
            !final(self).is_fresh() || step is Done,
            old(self).awaiting().is_none() && !old(self).is_fresh() ==> final(self).remaining_steps()
                < old(self).remaining_steps() || step is Done,
            old(self).is_fresh() && old(db).usable(old(self).input_text()).is_none()
                ==> step is Continue,
            old(self).is_fresh() && old(db).usable(old(self).input_text()).is_some()
                ==> step matches SearchStep::Done(Ok(_)),
            step matches SearchStep::Done(Err(SearchError::TimedOut)) == times_out(*old(self), now),
            step matches SearchStep::Done(Err(SearchError::Exhausted)) == is_exhausted(
                *old(self),
                now,
            ),
            is_serving(*old(self)) && !(step matches SearchStep::Done(Err(_))) ==> served_next(
                *old(self),
                *final(self),
                *old(db),
                now,
                step,
            ),
            old(self).awaiting().is_none() && old(self).remaining_steps() > 0 ==> (old(
                self,
            ).expanding() matches Some(node) ==> expanded(
                *old(self),
                *final(self),
                *old(db),
                *old(seen_prompts),
                *final(seen_prompts),
                node,
                now,
                step,
            )),
            stepped(
                *old(self),
                *final(self),
                *old(db),
                *final(db),
                *old(seen_prompts),
                *final(seen_prompts),
                now,
                step,
            ),
    {
        match &self.pending {
            Some(pending) => {
                assert(self.pending_ok(*pending));
                assert(!self.fresh);
                let shown = pending.verdict.duplicate();
                return SearchStep::AskHuman(shown);
            },
            None => {},
        }
        if self.current.is_none() {
            self.serve(db, now)
        } else {
            self.expand(db, seen_prompts, now)
        }
    }

    /// Takes the word of the human about the candidate that waits for it:
    /// `Some(reply)` where a reply was read, `None` where the prompt failed,
    /// which counts as a no that is not written down.
    ///
    /// A yes ends the search with the candidate as its solution, unless the
    /// store says that the candidate was refused. Otherwise the candidate is
    /// kept as a node to expand and the search goes on. A reply that is not a
    /// yes is written to the store as a refusal.
    pub fn answer(
        &mut self,
        db: &mut Database,
        seen_prompts: &mut SeenPrompts,
        reply: Option<&str>,
        now: u64,
    ) -> (step: SearchStep)
        requires
            old(self).wf(),
            old(db).wf(),
        ensures
            step_post(*old(self), *final(self), *old(db), *final(db), now, step),
            !(step is AskHuman),
            old(self).awaiting().is_none() ==> step is Continue && final(db).failed_table() == old(
                db,
            ).failed_table() && *final(self) == *old(self),
            reply.is_none() ==> step is Continue && final(db).failed_table() == old(
                db,
            ).failed_table(),
            final(self).remaining_steps() == old(self).remaining_steps(),
            final(self).is_fresh() == old(self).is_fresh(),
            final(self).clock() == if old(self).awaiting().is_some() {
                old(self).clock().after_resume(now)
            } else {
                old(self).clock()
            },
            step matches SearchStep::Done(Ok(solution)) ==> reply.is_some()
                && means_yes(reply.unwrap()@),
            old(self).awaiting() matches Some(shown) ==> answered(
                *old(self),
                *final(self),
                *old(db),
                *final(db),
                *old(seen_prompts),
                *final(seen_prompts),
                reply,
                shown,
                old(self).waiting().unwrap(),
                now,
                step,
            ),
            old(self).awaiting().is_none() || reply.is_none() ==> *final(seen_prompts) == *old(
                seen_prompts,
            ),
            old(self).awaiting().is_some() && reply.is_none() ==> passed_by(
                *old(self),
                *final(self),
                *old(db),
                *final(db),
                now,
            ),
    {
        let pending = match self.pending.take() {
            Some(pending) => pending,
            None => {
                return SearchStep::Continue;
            },
        };
        assert(self.pending_ok(pending));
        let accepted = match reply {
            Some(text) => human_reply(&pending.verdict, text, seen_prompts, db, &mut self.timer, now),
            None => {
                self.timer.resume(now);
                false
            },
        };
        let node = pending.node;
        let ghost shown = pending.verdict;
        let ghost waited = node;
        let ghost written = *db;
        assert(self.node_ok(node));
        let step = if accepted && !db.has_refused(
            node.text.as_str(),
            pending.verdict.checker_name,
        ) {
            proof {
                assert(path_view(node.path@).last() == node.path@.last()@);
            }
            let solution = self.finish(db, node.text, node.path, now);
            SearchStep::Done(Ok(solution))
        } else {
            self.keep(node);
            SearchStep::Continue
        };
        proof {
            assert(shown.text@ == waited.text@);
            assert(written.failed_table() == db.failed_table());
            if accepted {
                assert(written.failed_table() == old(db).failed_table());
                lemma_same_refusals(*old(db), written, shown.text@, shown.checker_name@);
            }
            assert(answered(
                *old(self),
                *self,
                *old(db),
                *db,
                *old(seen_prompts),
                *seen_prompts,
                reply,
                shown,
                waited,
                now,
                step,
            ));
            if reply.is_none() {
                assert(step == SearchStep::Continue);
                assert(answered(
                    *old(self),
                    *self,
                    *old(db),
                    *db,
                    *old(seen_prompts),
                    *old(seen_prompts),
                    None,
                    shown,
                    waited,
                    now,
                    SearchStep::Continue,
                ));
                assert(old(self).awaiting() == Some(shown));
                assert(old(self).waiting() == Some(waited));
                assert(step_post(*old(self), *self, *old(db), *db, now, SearchStep::Continue));
                assert(answered(
                    *old(self),
                    *self,
                    *old(db),
                    *db,
                    *old(seen_prompts),
                    *old(seen_prompts),
                    None,
                    old(self).awaiting().unwrap(),
                    old(self).waiting().unwrap(),
                    now,
                    SearchStep::Continue,
                ));
                assert(passed_by(*old(self), *self, *old(db), *db, now));
            }
        }
        step
    }
}

/// Everything that a step owes: the search `before` has taken a step at the
/// reading `now`, with the store `db_before` and the prompts `seen_before`,
/// and has become `after`, with the store `db_after` and the prompts
/// `seen_after`, handing out `step`.
pub open spec fn stepped(
    before: Search,
    after: Search,
    db_before: Database,
    db_after: Database,
    seen_before: SeenPrompts,
    seen_after: SeenPrompts,
    now: u64,
    step: SearchStep,
) -> bool {
    &&& step_post(before, after, db_before, db_after, now, step)
    &&& db_after.failed_table() == db_before.failed_table()
    &&& (before.awaiting().is_some() ==> step is AskHuman && after == before && seen_after
        == seen_before)
    &&& (is_serving(before) ==> seen_after == seen_before)
    &&& (step matches SearchStep::Done(Err(_)) ==> seen_after == seen_before)
    &&& (step matches SearchStep::Done(Err(SearchError::TimedOut))) == times_out(before, now)
    &&& (step matches SearchStep::Done(Err(SearchError::Exhausted))) == is_exhausted(before, now)
    &&& (is_serving(before) && !(step matches SearchStep::Done(Err(_))) ==> served_next(
        before,
        after,
        db_before,
        now,
        step,
    ))
    &&& (before.awaiting().is_none() && before.remaining_steps() > 0 ==> (
    before.expanding() matches Some(node) ==> expanded(
        before,
        after,
        db_before,
        seen_before,
        seen_after,
        node,
        now,
        step,
    )))
}

/// Everything that an answer owes where the prompt has failed: the candidate
/// that waited in the search `before` was kept for later, nothing was written
/// down, and the search goes on as `after`.
pub open spec fn passed_by(
    before: Search,
    after: Search,
    db_before: Database,
    db_after: Database,
    now: u64,
) -> bool {
    &&& before.awaiting().is_some()
    &&& step_post(before, after, db_before, db_after, now, SearchStep::Continue)
    &&& exists|seen: SeenPrompts| #[trigger]
        answered(
            before,
            after,
            db_before,
            db_after,
            seen,
            seen,
            None,
            before.awaiting().unwrap(),
            before.waiting().unwrap(),
            now,
            SearchStep::Continue,
        )
}

/// From the search `s` and the store `db`, at most `fuel` steps at some
/// readings of the clock lead to the outcome `r` and the store `db_end`,
/// where every prompt fails: each step is one that [`stepped`] allows, a
/// candidate that waits for a human is passed by, and the outcome is the one
/// that the last step hands out.
pub open spec fn runs_to(
    s: Search,
    db: Database,
    db_end: Database,
    r: Result<Solution, SearchError>,
    fuel: nat,
) -> bool
    decreases fuel,
{
    fuel > 0 && exists|
        after: Search,
        db_after: Database,
        seen: SeenPrompts,
        seen_after: SeenPrompts,
        now: u64,
        step: SearchStep,
    |
        {
            &&& #[trigger] stepped(s, after, db, db_after, seen, seen_after, now, step)
            &&& match step {
                SearchStep::Done(outcome) => outcome == r && db_after == db_end,
                SearchStep::Continue => runs_to(after, db_after, db_end, r, (fuel - 1) as nat),
                SearchStep::AskHuman(_) => exists|passed: Search, db_passed: Database, later: u64|
                    {
                        &&& #[trigger] passed_by(after, passed, db_after, db_passed, later)
                        &&& runs_to(passed, db_passed, db_end, r, (fuel - 1) as nat)
                    },
            }
        }
}

/// From the search `s` and the store `db`, steps lead to the outcome `r` and
/// the store `db_end`, see [`runs_to`].
#[verifier::opaque]
pub open spec fn reaches(
    s: Search,
    db: Database,
    db_end: Database,
    r: Result<Solution, SearchError>,
) -> bool {
    exists|fuel: nat| runs_to(s, db, db_end, r, fuel)
}

/// The search `s` is one that has just been set up for `input` with the
/// options `config`, the checker `checker` and the decoders of the registry.
pub open spec fn is_start(s: Search, input: Seq<char>, config: Config, checker: CheckerTypes) -> bool {
    &&& s.wf()
    &&& s.input_text() == input
    &&& s.active_checker() == checker
    &&& s.options() == config
    &&& s.is_fresh()
    &&& s.awaiting().is_none()
    &&& s.checker_invocations() == 0
    &&& s.remaining_steps() == config.max_steps
    &&& !s.clock().paused()
    &&& s.clock().accumulated == 0
    &&& is_registry(s.decoders())
    &&& starts_at(s, input)
}

/// What `search` owes for the input `input` and the checker `checker`, with
/// the store `before` having become `after` and `r` handed back.
///
/// An empty input is refused, and only an empty input. The refusals of the
/// store are as they were, and a search that fails leaves the cache as it
/// was. Where the cache can answer the input, its answer is the result, and
/// the store is left alone. Any other solution was found by decoding: it is
/// recorded in the cache as far as the cache can be written. No solution is
/// one that a human has refused. Where the store was sound it still is, and
/// the solution is sound.
pub open spec fn search_post(
    input: Seq<char>,
    checker: CheckerTypes,
    before: Database,
    after: Database,
    r: Result<Solution, SearchError>,
) -> bool {
    &&& after.wf()
    &&& after.failed_table() == before.failed_table()
    &&& (input.len() == 0) == (r matches Err(SearchError::InvalidInput))
    &&& (r matches Err(e) ==> (e is InvalidInput || e is TimedOut || e is Exhausted)
        && after.cache_table() == before.cache_table())
    &&& (input.len() > 0 ==> match before.usable(input) {
        Some(record) => {
            &&& r matches Ok(solution)
            &&& solution@ == solution_of(record)
            &&& after.cache_table() == before.cache_table()
        },
        None => r matches Ok(solution) ==> recorded(before, after, input, solution@),
    })
    &&& (r matches Ok(solution) ==> {
        &&& solution@.path.len() > 0
        &&& !after.refused(solution@.plaintext, identified_by(solution@.path))
    })
    &&& (store_sound(before, checker) ==> {
        &&& store_sound(after, checker)
        &&& r matches Ok(solution) ==> sound(solution@, input, checker)
    })
}

/// Searches for the plaintext of `input` without a human at hand.
///
/// The search is set up and takes step after step, each at the reading of
/// the clock at that moment, until a step hands out an outcome, which is
/// the result. A candidate that a human would have to confirm cannot be
/// confirmed: the prompt counts as failed, the candidate as not accepted, and
/// the search goes on.
pub fn search(
    input: &str,
    config: Config,
    checker: CheckerTypes,
    db: &mut Database,
    seen_prompts: &mut SeenPrompts,
) -> (r: Result<Solution, SearchError>)
    requires
        old(db).wf(),
    ensures
        search_post(input@, checker, *old(db), *final(db), r),
        input@.len() > 0 ==> exists|start: Search|
            is_start(start, input@, config, checker) && #[trigger] reaches(
                start,
                *old(db),
                *final(db),
                r,
            ),
{
    let clock = Clock::start();
    let mut engine = match Search::new(input, config, checker, clock.now_ms()) {
        Ok(engine) => engine,
        Err(e) => {
            return Err(e);
        },
    };
    let ghost start = engine;
    proof {
        assert forall|db_end: Database, out: Result<Solution, SearchError>, fuel: nat| #[trigger]
            runs_to(engine, *db, db_end, out, fuel) implies reaches(start, *old(db), db_end, out) by {
            reveal(reaches);
        }
    }
    loop
        invariant
            engine.wf(),
            db.wf(),
            input@.len() > 0,
            engine.input_text() == input@,
            engine.active_checker() == checker,
            engine.awaiting().is_none(),
            db.cache_table() == old(db).cache_table(),
            db.failed_table() == old(db).failed_table(),
            !engine.is_fresh() ==> old(db).usable(input@).is_none(),
            store_sound(*old(db), checker) ==> store_sound(*db, checker),
            is_start(start, input@, config, checker),
            forall|db_end: Database, out: Result<Solution, SearchError>, fuel: nat| #[trigger]
                runs_to(engine, *db, db_end, out, fuel) ==> reaches(start, *old(db), db_end, out),
        decreases
                engine.remaining_steps() + if engine.is_fresh() {
                    1nat
                } else {
                    0nat
                },
    {
        let now = clock.now_ms();
        let ghost db_before = *db;
        let ghost before = engine;
        let ghost seen_before = *seen_prompts;
        proof {
            lemma_same_tables(*old(db), db_before, input@);
        }
        let step = engine.step(db, seen_prompts, now);
        let ghost taken = step;
        let ghost stepped_to = engine;
        let ghost db_stepped = *db;
        let ghost seen_stepped = *seen_prompts;
        match step {
            SearchStep::Continue => {
                proof {
                    assert forall|db_end: Database, out: Result<Solution, SearchError>, fuel: nat|
                        #[trigger] runs_to(engine, *db, db_end, out, fuel) implies reaches(
                        start,
                        *old(db),
                        db_end,
                        out,
                    ) by {
                        assert(stepped(
                            before,
                            stepped_to,
                            db_before,
                            db_stepped,
                            seen_before,
                            seen_stepped,
                            now,
                            taken,
                        ));
                        assert(runs_to(before, db_before, db_end, out, fuel + 1));
                    }
                }
            },
            SearchStep::AskHuman(_) => {
                let _ = engine.answer(db, seen_prompts, None, now);
                proof {
                    let passed = engine;
                    let db_passed = *db;
                    assert forall|db_end: Database, out: Result<Solution, SearchError>, fuel: nat|
                        #[trigger] runs_to(engine, *db, db_end, out, fuel) implies reaches(
                        start,
                        *old(db),
                        db_end,
                        out,
                    ) by {
                        assert(stepped(
                            before,
                            stepped_to,
                            db_before,
                            db_stepped,
                            seen_before,
                            seen_stepped,
                            now,
                            taken,
                        ));
                        assert(passed_by(stepped_to, passed, db_stepped, db_passed, now));
                        assert(runs_to(before, db_before, db_end, out, fuel + 1));
                    }
                }
            },
            SearchStep::Done(r) => {
                proof {
                    lemma_same_tables(*old(db), db_before, input@);
                    assert(stepped(
                        before,
                        stepped_to,
                        db_before,
                        db_stepped,
                        seen_before,
                        seen_stepped,
                        now,
                        taken,
                    ));
                    assert(runs_to(before, db_before, *db, r, 1));
                }
                return r;
            },
        }
    }
}

/// A run ends without a solution only because the time or the limits ran
/// out: whatever the steps of a run lead to, it is a solution, `TimedOut` or
/// `Exhausted`.
pub proof fn lemma_run_ends_in_time_or_limits(
    s: Search,
    db: Database,
    db_end: Database,
    r: Result<Solution, SearchError>,
    fuel: nat,
)
    requires
        runs_to(s, db, db_end, r, fuel),
    ensures
        r matches Err(e) ==> e is TimedOut || e is Exhausted,
    decreases fuel,
{
    let (after, db_after, seen, seen_after, now, step) = choose|
        after: Search,
        db_after: Database,
        seen: SeenPrompts,
        seen_after: SeenPrompts,
        now: u64,
        step: SearchStep,
    |
        {
            &&& #[trigger] stepped(s, after, db, db_after, seen, seen_after, now, step)
            &&& match step {
                SearchStep::Done(outcome) => outcome == r && db_after == db_end,
                SearchStep::Continue => runs_to(after, db_after, db_end, r, (fuel - 1) as nat),
                SearchStep::AskHuman(_) => exists|passed: Search, db_passed: Database, later: u64|
                    {
                        &&& #[trigger] passed_by(after, passed, db_after, db_passed, later)
                        &&& runs_to(passed, db_passed, db_end, r, (fuel - 1) as nat)
                    },
            }
        };
    match step {
        SearchStep::Done(outcome) => {},
        SearchStep::Continue => {
            lemma_run_ends_in_time_or_limits(after, db_after, db_end, r, (fuel - 1) as nat);
        },
        SearchStep::AskHuman(_) => {
            let (passed, db_passed, later) = choose|
                passed: Search,
                db_passed: Database,
                later: u64,
            |
                {
                    &&& #[trigger] passed_by(after, passed, db_after, db_passed, later)
                    &&& runs_to(passed, db_passed, db_end, r, (fuel - 1) as nat)
                };
            lemma_run_ends_in_time_or_limits(passed, db_passed, db_end, r, (fuel - 1) as nat);
        },
    }
}

/// Two stores with the same tables answer alike.
pub proof fn lemma_same_tables(a: Database, b: Database, text: Seq<char>)
    requires
        a.cache_table() == b.cache_table(),
        a.failed_table() == b.failed_table(),
    ensures
        a.usable(text) == b.usable(text),
        forall|checker: CheckerTypes| store_sound(a, checker) == store_sound(b, checker),
        forall|plaintext: Seq<char>, name: Seq<char>|
            a.refused(plaintext, name) == b.refused(plaintext, name),
{
    assert forall|record: CacheRecord| #[trigger]
        a.record_refused(record) == b.record_refused(record) by {}
    assert(a.answers(text) =~= b.answers(text));
}

/// Two stores with the same refusals refuse alike.
pub proof fn lemma_same_refusals(a: Database, b: Database, plaintext: Seq<char>, name: Seq<char>)
    requires
        a.failed_table() == b.failed_table(),
    ensures
        a.refused(plaintext, name) == b.refused(plaintext, name),
{
}

/// Search soundness: on a sound store, the path of every solution starts at
/// the input, every record of it is the work of a decoder on the text it
/// names, the input of every record but the first is a candidate of the
/// record before it, the plaintext is a candidate of the last record, which
/// says that it was identified, and the checker does classify the plaintext
/// as identified.
pub proof fn lemma_search_is_sound(
    input: Seq<char>,
    checker: CheckerTypes,
    before: Database,
    after: Database,
    r: Result<Solution, SearchError>,
)
    requires
        search_post(input, checker, before, after, r),
        store_sound(before, checker),
        r.is_ok(),
    ensures
        ({
            let path = r.unwrap()@.path;
            let plaintext = r.unwrap()@.plaintext;
            &&& path.len() > 0
            &&& path[0].encrypted_text == input
            &&& forall|i: int| 0 <= i < path.len() ==> step_ok(#[trigger] path[i])
            &&& forall|i: int|
                0 <= i < path.len() - 1 ==> (#[trigger] path[i]).unencrypted_text.unwrap().contains(
                    path[i + 1].encrypted_text,
                )
            &&& path.last().unencrypted_text.unwrap().contains(plaintext)
            &&& path.last().success
            &&& checker.accepts(plaintext)
        }),
{
    let solution = r.unwrap()@;
    lemma_links_consecutive(solution.path, input, solution.plaintext);
}

/// Cache idempotence: a search that ended with a solution, and whose solution
/// is in the cache (because the search put it there or took it from there),
/// is repeated by every later search for the same input on the store it left
/// behind: the same solution comes back, straight from the cache, and the
/// store is left alone.
pub proof fn lemma_search_idempotent(
    input: Seq<char>,
    checker: CheckerTypes,
    db0: Database,
    db1: Database,
    first: Result<Solution, SearchError>,
    db2: Database,
    second: Result<Solution, SearchError>,
)
    requires
        search_post(input, checker, db0, db1, first),
        search_post(input, checker, db1, db2, second),
        first.is_ok(),
        db0.usable(input).is_some() || db1.cache_table() != db0.cache_table(),
    ensures
        second.is_ok(),
        second.unwrap()@ == first.unwrap()@,
        db2.cache_table() == db1.cache_table(),
        db2.failed_table() == db1.failed_table(),
{
    let solution = first.unwrap();
    if db0.usable(input).is_some() {
        lemma_same_tables(db0, db1, input);
    } else {
        let records = db0.cache_table().unwrap();
        let record = choose|record: CacheRecord|
            {
                &&& db1.cache_table() == Some(#[trigger] records.push(record))
                &&& record.wf_at(records.len() as int)
                &&& record.row.encoded_text@ == input
                &&& solution_of(record) == solution@
            };
        assert forall|r: CacheRecord| #[trigger]
            db1.record_refused(r) == db0.record_refused(r) by {}
        assert(db1.answers(input) =~= db0.answers(input));
        assert(db1.answers(input)(record)) by {
            assert(path_view(record.results@) == solution@.path);
        }
        lemma_first_match_push(records, record, db1.answers(input));
        assert(db1.usable(input) == Some(record));
    }
}

/// Failed-decode respect: whatever a search hands back, it is not a plaintext
/// that a human had refused, before the search began, under the checker that
/// identified it.
pub proof fn lemma_refused_is_not_returned(
    input: Seq<char>,
    checker: CheckerTypes,
    before: Database,
    after: Database,
    r: Result<Solution, SearchError>,
    plaintext: Seq<char>,
    name: Seq<char>,
)
    requires
        search_post(input, checker, before, after, r),
        before.refused(plaintext, name),
    ensures
        !(r matches Ok(solution) && solution@.plaintext == plaintext && identified_by(
            solution@.path,
        ) == name),
{
    lemma_same_refusals(before, after, plaintext, name);
}

/// The composite checker as the options ask for it: with their sensitivity
/// and with their patterns after the built-in ones.
pub fn athena_for(config: &Config) -> (checker: CheckerTypes)
    ensures
        checker matches CheckerTypes::CheckAthena(athena) && athena.sensitivity
            == config.sensitivity && athena.identity()
            == athena_identity() && athena.regex_list@.len() == 3
            + config.regex_list@.len() && athena.regex_list@[0]@ == EMAIL_PATTERN@
            && athena.regex_list@[1]@ == URL_PATTERN@ && athena.regex_list@[2]@ == IPV4_PATTERN@
            && forall|i: int|
            0 <= i < config.regex_list@.len() ==> (#[trigger] athena.regex_list@[3 + i])@
                == config.regex_list@[i]@,
{
    let mut athena = Checker::<Athena>::new().with_sensitivity(config.sensitivity);
    let mut i: usize = 0;
    while i < config.regex_list.len()
        invariant
            i <= config.regex_list@.len(),
            athena.sensitivity == config.sensitivity,
            athena.identity() == athena_identity(),
            athena.regex_list@.len() == 3 + i,
            athena.regex_list@[0]@ == EMAIL_PATTERN@,
            athena.regex_list@[1]@ == URL_PATTERN@,
            athena.regex_list@[2]@ == IPV4_PATTERN@,
            forall|k: int|
                0 <= k < i ==> (#[trigger] athena.regex_list@[3 + k])@ == config.regex_list@[k]@,
        decreases config.regex_list@.len() - i,
    {
        athena.regex_list.push(config.regex_list[i].clone());
        i += 1;
    }
    CheckerTypes::CheckAthena(athena)
}

} // verus!
