//! The rows of the two tables of the knowledge store.

use crate::decoders::crack_results::{CrackResult, CrackView};
use vstd::prelude::*;
use vstd::std_specs::cmp::PartialEqSpecImpl;

verus! {

/// Struct representing a row in the failed_decodes table
#[derive(Debug)]
pub struct FailedDecodesRow {
    /// Index of row in failed_decodes table
    pub id: usize,
    /// Plaintext that has been marked as a failed decode
    pub plaintext: String,
    /// Name of the checker that was used to confirm the plaintext
    pub checker: String,
    /// When the decoding was run
    pub timestamp: String,
}

/// A row of the failed_decodes table as a mathematical value.
pub struct FailedDecodesView {
    pub id: nat,
    pub plaintext: Seq<char>,
    pub checker: Seq<char>,
    pub timestamp: Seq<char>,
}

impl View for FailedDecodesRow {
    type V = FailedDecodesView;

    open spec fn view(&self) -> FailedDecodesView {
        FailedDecodesView {
            id: self.id as nat,
            plaintext: self.plaintext@,
            checker: self.checker@,
            timestamp: self.timestamp@,
        }
    }
}

impl PartialEq for FailedDecodesRow {
    fn eq(&self, other: &Self) -> (r: bool) {
        self.id == other.id && self.plaintext == other.plaintext && self.checker == other.checker
            && self.timestamp == other.timestamp
    }
}

impl PartialEqSpecImpl for FailedDecodesRow {
    open spec fn obeys_eq_spec() -> bool {
        true
    }

    open spec fn eq_spec(&self, other: &Self) -> bool {
        self.id == other.id && self.plaintext@ == other.plaintext@ && self.checker@
            == other.checker@ && self.timestamp@ == other.timestamp@
    }
}

impl FailedDecodesRow {
    /// A copy of the row.
    pub fn duplicate(&self) -> (r: FailedDecodesRow)
        ensures
            r@ == self@,
    {
        FailedDecodesRow {
            id: self.id,
            plaintext: self.plaintext.clone(),
            checker: self.checker.clone(),
            timestamp: self.timestamp.clone(),
        }
    }
}

/// Struct representing a row in the cache table
#[derive(Debug)]
pub struct CacheRow {
    /// Index of row in cache table
    pub id: usize,
    /// Text before it is decoded
    pub encoded_text: String,
    /// Text after it is decoded
    pub decoded_text: String,
    /// Ordered list of decoding attempts, each in its JSON form
    pub path: Vec<String>,
    /// Whether or not the decoding was successful
    pub successful: bool,
    /// How long the decoding took in milliseconds
    pub execution_time_ms: i64,
    /// When the decoding was run
    pub timestamp: String,
}

/// A row of the cache table as a mathematical value.
pub struct CacheRowView {
    pub id: nat,
    pub encoded_text: Seq<char>,
    pub decoded_text: Seq<char>,
    pub path: Seq<Seq<char>>,
    pub successful: bool,
    pub execution_time_ms: int,
    pub timestamp: Seq<char>,
}

impl View for CacheRow {
    type V = CacheRowView;

    open spec fn view(&self) -> CacheRowView {
        CacheRowView {
            id: self.id as nat,
            encoded_text: self.encoded_text@,
            decoded_text: self.decoded_text@,
            path: self.path.deep_view(),
            successful: self.successful,
            execution_time_ms: self.execution_time_ms as int,
            timestamp: self.timestamp@,
        }
    }
}

/// Whether two lists hold the same texts in the same order.
pub fn same_texts(a: &Vec<String>, b: &Vec<String>) -> (r: bool)
    ensures
        r == (a.deep_view() == b.deep_view()),
{
    if a.len() != b.len() {
        assert(a.deep_view().len() != b.deep_view().len());
        return false;
    }
    let mut i: usize = 0;
    while i < a.len()
        invariant
            a.len() == b.len(),
            i <= a.len(),
            forall|j: int| 0 <= j < i ==> a@[j]@ == b@[j]@,
        decreases a.len() - i,
    {
        if a[i] != b[i] {
            assert(a.deep_view()[i as int] != b.deep_view()[i as int]);
            return false;
        }
        i += 1;
    }
    assert(a.deep_view() =~= b.deep_view());
    true
}

/// A copy of a list of texts.
pub fn copy_texts(a: &Vec<String>) -> (r: Vec<String>)
    ensures
        r.deep_view() == a.deep_view(),
{
    let mut r: Vec<String> = Vec::new();
    let mut i: usize = 0;
    while i < a.len()
        invariant
            i <= a.len(),
            r.len() == i,
            forall|j: int| 0 <= j < i ==> r@[j]@ == a@[j]@,
        decreases a.len() - i,
    {
        r.push(a[i].clone());
        i += 1;
    }
    assert(r.deep_view() =~= a.deep_view());
    r
}

impl PartialEq for CacheRow {
    fn eq(&self, other: &Self) -> (r: bool) {
        self.id == other.id && self.encoded_text == other.encoded_text && self.decoded_text
            == other.decoded_text && same_texts(&self.path, &other.path) && self.successful
            == other.successful && self.execution_time_ms == other.execution_time_ms
            && self.timestamp == other.timestamp
    }
}

impl PartialEqSpecImpl for CacheRow {
    open spec fn obeys_eq_spec() -> bool {
        true
    }

    open spec fn eq_spec(&self, other: &Self) -> bool {
        self.id == other.id && self.encoded_text@ == other.encoded_text@ && self.decoded_text@
            == other.decoded_text@ && self.path.deep_view() == other.path.deep_view()
            && self.successful == other.successful && self.execution_time_ms
            == other.execution_time_ms && self.timestamp@ == other.timestamp@
    }
}

impl CacheRow {
    /// A copy of the row.
    pub fn duplicate(&self) -> (r: CacheRow)
        ensures
            r@ == self@,
    {
        CacheRow {
            id: self.id,
            encoded_text: self.encoded_text.clone(),
            decoded_text: self.decoded_text.clone(),
            path: copy_texts(&self.path),
            successful: self.successful,
            execution_time_ms: self.execution_time_ms,
            timestamp: self.timestamp.clone(),
        }
    }
}

/// Represents an entry into the cache table
#[derive(Debug)]
pub struct CacheEntry {
    /// Text before it is decoded
    pub encoded_text: String,
    /// Text after it is decoded
    pub decoded_text: String,
    /// Ordered list of decoding attempts
    pub path: Vec<CrackResult>,
    /// How long the decoding took in milliseconds
    pub execution_time_ms: i64,
}

/// The records of a path as mathematical values.
pub open spec fn path_view(path: Seq<CrackResult>) -> Seq<CrackView> {
    Seq::new(path.len(), |i: int| path[i]@)
}

/// The name of the checker that identified the text a path leads to: the one
/// in the last record of the path.
pub open spec fn identified_by(path: Seq<CrackView>) -> Seq<char> {
    if path.len() > 0 {
        path.last().checker_name
    } else {
        Seq::empty()
    }
}

} // verus!
