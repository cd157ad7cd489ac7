//! What a search hands back, and what it means for a path of records to lead
//! from one text to another.

use crate::checkers::CheckerTypes;
use crate::decoders::crack_results::{CrackResult, CrackView};
use crate::decoders::{produced_by, Family};
use crate::storage::database::{CacheRecord, Database};
use crate::storage::rows::path_view;
use vstd::prelude::*;
use vstd::string::StringExecFns;

verus! {

/// The plaintext a search found, and how it got there.
#[derive(Debug)]
pub struct Solution {
    /// The plaintext
    pub plaintext: String,
    /// The records of the decoders that lead from the input to the plaintext
    pub path: Vec<CrackResult>,
    /// How long the search took, in milliseconds
    pub elapsed_ms: u64,
}

/// A solution as a mathematical value.
pub struct SolutionView {
    pub plaintext: Seq<char>,
    pub path: Seq<CrackView>,
    pub elapsed_ms: u64,
}

impl View for Solution {
    type V = SolutionView;

    open spec fn view(&self) -> SolutionView {
        SolutionView {
            plaintext: self.plaintext@,
            path: path_view(self.path@),
            elapsed_ms: self.elapsed_ms,
        }
    }
}

/// Why a search ended without a solution.
#[derive(Debug)]
pub enum SearchError {
    /// The wall-clock budget ran out
    TimedOut,
    /// Nothing is left to try within the limits
    Exhausted,
    /// The input is empty
    InvalidInput,
    /// The store failed in a way the search could not work around
    StoreError(String),
}

impl SearchError {
    /// The error in words.
    pub fn message(&self) -> (r: String)
        ensures
            r@ == match self {
                SearchError::TimedOut => "the search ran out of time"@,
                SearchError::Exhausted => "nothing is left to try"@,
                SearchError::InvalidInput => "the input is empty"@,
                SearchError::StoreError(detail) => "the store failed: "@ + detail@,
            },
    {
        match self {
            SearchError::TimedOut => "the search ran out of time".to_owned(),
            SearchError::Exhausted => "nothing is left to try".to_owned(),
            SearchError::InvalidInput => "the input is empty".to_owned(),
            SearchError::StoreError(detail) => {
                let mut r = "the store failed: ".to_owned();
                r.append(detail.as_str());
                r
            },
        }
    }
}

/// The record is the work of a decoder of the registry on the text it names.
pub open spec fn step_ok(v: CrackView) -> bool {
    exists|family: Family| #[trigger] produced_by(family, v)
}

/// The path leads from the text `from` to the text `to`: every record is the
/// work of a decoder of the registry, the first one on `from`, every other
/// one on a candidate of the record before it, and `to` is a candidate of the
/// last. The empty path leads from a text to itself.
pub open spec fn links(path: Seq<CrackView>, from: Seq<char>, to: Seq<char>) -> bool
    decreases path.len(),
{
    if path.len() == 0 {
        from == to
    } else {
        &&& step_ok(path.last())
        &&& path.last().unencrypted_text.unwrap().contains(to)
        &&& links(path.drop_last(), from, path.last().encrypted_text)
    }
}

/// Dropping the last record of a path leaves the path that leads to the
/// input of that record.
pub proof fn lemma_links_prefix(path: Seq<CrackView>, from: Seq<char>, to: Seq<char>)
    requires
        links(path, from, to),
        path.len() > 0,
    ensures
        links(path.drop_last(), from, path.last().encrypted_text),
        step_ok(path.last()),
        path.last().unencrypted_text.unwrap().contains(to),
{
}

/// Along a path the first record is about the text the path starts from,
/// every record is the work of a decoder of the registry, and the input of
/// every record but the first is a candidate of the record before it.
pub proof fn lemma_links_consecutive(path: Seq<CrackView>, from: Seq<char>, to: Seq<char>)
    requires
        links(path, from, to),
        path.len() > 0,
    ensures
        path[0].encrypted_text == from,
        forall|i: int| 0 <= i < path.len() ==> step_ok(#[trigger] path[i]),
        forall|i: int|
            0 <= i < path.len() - 1 ==> (#[trigger] path[i]).unencrypted_text.unwrap().contains(
                path[i + 1].encrypted_text,
            ),
    decreases path.len(),
{
    if path.len() > 1 {
        let shorter = path.drop_last();
        lemma_links_consecutive(shorter, from, path.last().encrypted_text);
        lemma_links_prefix(shorter, from, path.last().encrypted_text);
        assert(path[0] == shorter[0]);
        assert forall|i: int| 0 <= i < path.len() implies step_ok(#[trigger] path[i]) by {
            if i < path.len() - 1 {
                assert(path[i] == shorter[i]);
            }
        }
        assert forall|i: int| 0 <= i < path.len() - 1 implies (
        #[trigger] path[i]).unencrypted_text.unwrap().contains(path[i + 1].encrypted_text) by {
            assert(path[i] == shorter[i]);
            if i < path.len() - 2 {
                assert(path[i + 1] == shorter[i + 1]);
            }
        }
    } else {
        assert(links(path.drop_last(), from, path.last().encrypted_text));
        assert(path.drop_last().len() == 0);
        assert(path[0] == path.last());
    }
}

/// A path that leads to the input of a record goes on, with that record, to
/// each of its candidates.
pub proof fn lemma_links_push(
    path: Seq<CrackView>,
    from: Seq<char>,
    record: CrackView,
    to: Seq<char>,
)
    requires
        links(path, from, record.encrypted_text),
        step_ok(record),
        record.unencrypted_text.unwrap().contains(to),
    ensures
        links(path.push(record), from, to),
{
    assert(path.push(record).drop_last() =~= path);
}

/// Two paths that meet can be joined.
pub proof fn lemma_links_join(
    first: Seq<CrackView>,
    second: Seq<CrackView>,
    from: Seq<char>,
    via: Seq<char>,
    to: Seq<char>,
)
    requires
        links(first, from, via),
        links(second, via, to),
    ensures
        links(first + second, from, to),
    decreases second.len(),
{
    if second.len() == 0 {
        assert(first + second =~= first);
    } else {
        lemma_links_join(first, second.drop_last(), from, via, second.last().encrypted_text);
        assert((first + second).drop_last() =~= first + second.drop_last());
        assert((first + second).last() == second.last());
    }
}

/// The solution is sound for the input `input` and the checker `checker`:
/// its path leads from the input to the plaintext, the last record of the
/// path says that the plaintext was identified, and the checker does classify
/// the plaintext as identified.
pub open spec fn sound(solution: SolutionView, input: Seq<char>, checker: CheckerTypes) -> bool {
    &&& solution.path.len() > 0
    &&& links(solution.path, input, solution.plaintext)
    &&& solution.path.last().success
    &&& checker.accepts(solution.plaintext)
}

/// How long a search took as the store keeps it: in milliseconds, capped at
/// the largest value of the column.
pub open spec fn stored_time(elapsed_ms: u64) -> i64 {
    if elapsed_ms <= i64::MAX {
        elapsed_ms as i64
    } else {
        i64::MAX
    }
}

/// How long a search took as a solution reports it, read from the store.
pub open spec fn reported_time(execution_time_ms: i64) -> u64 {
    if execution_time_ms >= 0 {
        execution_time_ms as u64
    } else {
        0
    }
}

/// The solution that a cache record stands for.
pub open spec fn solution_of(record: CacheRecord) -> SolutionView {
    SolutionView {
        plaintext: record.row.decoded_text@,
        path: path_view(record.results@),
        elapsed_ms: reported_time(record.row.execution_time_ms),
    }
}

/// Every record of the cache is a sound solution for the text it is about.
pub open spec fn store_sound(db: Database, checker: CheckerTypes) -> bool {
    db.cache_table() matches Some(records) ==> forall|i: int|
        0 <= i < records.len() ==> sound(
            solution_of(#[trigger] records[i]),
            records[i].row.encoded_text@,
            checker,
        )
}

/// A store without a cache table, or with an empty one, is sound.
pub proof fn lemma_empty_store_is_sound(db: Database, checker: CheckerTypes)
    requires
        db.cache_table() matches Some(records) ==> records.len() == 0,
    ensures
        store_sound(db, checker),
{
}

} // verus!
