//! The knowledge store: a cache of completed decodings and a list of the
//! plaintexts a human has refused.
//!
//! The store is a value. It holds the two tables as the rows they contain, in
//! the order of insertion; whoever persists it writes those rows out and feeds
//! them back in.

use crate::checkers::checker_result::CheckResult;
use crate::decoders::crack_results::{CrackResult, CrackView};
use crate::decoders::json::{crack_json, json_array, json_candidates};
use crate::sequence::{first_index, first_match, lemma_first_index_stable};
use crate::storage::schema::{CACHE_TABLE, FAILED_DECODES_TABLE};
use crate::storage::rows::{identified_by, path_view, CacheEntry, CacheRow, FailedDecodesRow};
use crate::text::str_equal;
use vstd::prelude::*;

verus! {

/// What can go wrong when the store is read.
#[derive(Debug, Clone, Copy, PartialEq, Eq, Structural)]
pub enum DatabaseError {
    /// The cache table has not been created
    NoCacheTable,
    /// The failed_decodes table has not been created
    NoFailedDecodesTable,
}

impl DatabaseError {
    /// The error in words.
    pub fn message(&self) -> (r: String)
        ensures
            r@ == match self {
                DatabaseError::NoCacheTable => "no such table: cache"@,
                DatabaseError::NoFailedDecodesTable => "no such table: failed_decodes"@,
            },
    {
        match self {
            DatabaseError::NoCacheTable => "no such table: cache".to_owned(),
            DatabaseError::NoFailedDecodesTable => "no such table: failed_decodes".to_owned(),
        }
    }
}

/// The text that the path of a cache row holds for a record: its JSON form,
/// or the empty text where the JSON writer refuses the record.
pub open spec fn stored_text(record: CrackView) -> Seq<char> {
    match crack_json(record) {
        Some(json) => json,
        None => Seq::empty(),
    }
}

/// The texts that the path of a cache row holds for the records of `path`.
pub open spec fn stored_texts(path: Seq<CrackView>) -> Seq<Seq<char>> {
    Seq::new(path.len(), |k: int| stored_text(path[k]))
}

/// One completed decoding as the store keeps it: the row of the cache table,
/// the JSON text of its path column, and the path as records.
#[derive(Debug)]
pub struct CacheRecord {
    /// The row as `read_cache` hands it out
    pub row: CacheRow,
    /// The path of the row as one JSON array
    pub path_json: String,
    /// The path as records, for a search that starts from this row
    pub results: Vec<CrackResult>,
}

impl CacheRecord {
    /// The record is the `position`-th of its table (counting from 0), and
    /// its row is marked successful exactly when the last record of its path
    /// is.
    pub open spec fn wf_at(self, position: int) -> bool {
        &&& self.row.id == position + 1
        &&& self.row.successful == (self.results@.len() > 0 && self.results@.last().success)
    }

    /// The JSON texts of the record are those of its path: the row's path
    /// holds the JSON form of each record, or the empty text where there is
    /// none, and the path column is the JSON array of the row's path.
    pub open spec fn agrees(self) -> bool {
        &&& self.row.path.deep_view() == stored_texts(path_view(self.results@))
        &&& json_candidates(Some(self.row.path.deep_view())) == Some(self.path_json@)
    }

    /// The record is the one that is written for `entry` at `position` with
    /// the timestamp `timestamp`, the row path `path` and the path column
    /// `path_json`.
    pub open spec fn is_row_of(
        self,
        entry: CacheEntry,
        timestamp: Seq<char>,
        path: Seq<Seq<char>>,
        path_json: Seq<char>,
        position: int,
    ) -> bool {
        &&& self.wf_at(position)
        &&& self.holds(entry, timestamp)
        &&& self.row.path.deep_view() == path
        &&& self.path_json@ == path_json
    }

    /// The record holds what `entry` says, stamped with `timestamp`.
    pub open spec fn holds(self, entry: CacheEntry, timestamp: Seq<char>) -> bool {
        &&& self.row.encoded_text@ == entry.encoded_text@
        &&& self.row.decoded_text@ == entry.decoded_text@
        &&& self.row.execution_time_ms == entry.execution_time_ms
        &&& self.row.timestamp@ == timestamp
        &&& path_view(self.results@) == path_view(entry.path@)
    }
}

/// The knowledge store.
#[derive(Debug)]
pub struct Database {
    /// The cache table, once it has been created
    cache: Option<Vec<CacheRecord>>,
    /// The failed_decodes table, once it has been created
    failed_decodes: Option<Vec<FailedDecodesRow>>,
}

/// The row is about the encoded text `text`.
pub open spec fn caches(text: Seq<char>) -> spec_fn(CacheRecord) -> bool {
    |record: CacheRecord| record.row.encoded_text@ == text
}

/// The row is about the plaintext `text`.
pub open spec fn refuses(text: Seq<char>) -> spec_fn(FailedDecodesRow) -> bool {
    |row: FailedDecodesRow| row.plaintext@ == text
}

impl Database {
    /// The records of the cache table in the order of insertion; `None` before
    /// the table is created.
    pub closed spec fn cache_table(&self) -> Option<Seq<CacheRecord>> {
        match self.cache {
            Some(records) => Some(records@),
            None => None,
        }
    }

    /// The rows of the failed_decodes table in the order of insertion; `None`
    /// before the table is created.
    pub closed spec fn failed_table(&self) -> Option<Seq<FailedDecodesRow>> {
        match self.failed_decodes {
            Some(rows) => Some(rows@),
            None => None,
        }
    }

    /// The rows are numbered from 1 in the order of insertion, and every cache
    /// row is marked successful exactly when the last record of its path is.
    pub open spec fn wf(&self) -> bool {
        &&& self.cache_table() matches Some(records) ==> forall|i: int|
            0 <= i < records.len() ==> (#[trigger] records[i]).wf_at(i)
        &&& self.failed_table() matches Some(rows) ==> forall|i: int|
            0 <= i < rows.len() ==> (#[trigger] rows[i]).id == i + 1
    }

    /// The cache record that answers for the encoded text `text`: the first
    /// one about it.
    pub open spec fn cached(&self, text: Seq<char>) -> Option<CacheRecord> {
        match self.cache_table() {
            Some(records) => match first_match(records, caches(text)) {
                Some(i) => Some(records[i]),
                None => None,
            },
            None => None,
        }
    }

    /// A human has refused `plaintext` as the answer of the checker named
    /// `checker`.
    pub open spec fn refused(&self, plaintext: Seq<char>, checker: Seq<char>) -> bool {
        match self.failed_table() {
            Some(rows) => exists|i: int|
                0 <= i < rows.len() && (#[trigger] rows[i]).plaintext@ == plaintext && rows[i].checker@
                    == checker,
            None => false,
        }
    }

    /// A human has refused what the record holds as plaintext, under the
    /// checker that had identified it.
    pub open spec fn record_refused(&self, record: CacheRecord) -> bool {
        self.refused(record.row.decoded_text@, identified_by(path_view(record.results@)))
    }

    /// The record is about the encoded text `text`, it has a path, and no
    /// human has refused what it holds.
    pub open spec fn answers(&self, text: Seq<char>) -> spec_fn(CacheRecord) -> bool {
        |record: CacheRecord|
            record.row.encoded_text@ == text && record.results@.len() > 0 && !self.record_refused(
                record,
            )
    }

    /// The cache record that a search may answer `text` with: the first one
    /// about it that has a path and that no human has refused.
    pub open spec fn usable(&self, text: Seq<char>) -> Option<CacheRecord> {
        match self.cache_table() {
            Some(records) => match first_match(records, self.answers(text)) {
                Some(i) => Some(records[i]),
                None => None,
            },
            None => None,
        }
    }

    /// A store without tables, as a fresh database is before its setup.
    pub fn new() -> (db: Database)
        ensures
            db.wf(),
            db.cache_table().is_none(),
            db.failed_table().is_none(),
    {
        Database { cache: None, failed_decodes: None }
    }

    /// The names of the tables that have been created.
    pub fn table_names(&self) -> (names: Vec<&'static str>)
        ensures
            names@.len() == (if self.cache_table().is_some() {
                1nat
            } else {
                0nat
            }) + (if self.failed_table().is_some() {
                1nat
            } else {
                0nat
            }),
            self.cache_table().is_some() ==> names@[0]@ == CACHE_TABLE@,
            self.failed_table().is_some() ==> names@.last()@ == FAILED_DECODES_TABLE@,
    {
        let mut names: Vec<&'static str> = Vec::new();
        if self.cache.is_some() {
            names.push(CACHE_TABLE);
        }
        if self.failed_decodes.is_some() {
            names.push(FAILED_DECODES_TABLE);
        }
        names
    }

    /// The rows of the cache table in the order of insertion; none before the
    /// table is created.
    pub fn cache_rows(&self) -> (rows: Vec<CacheRow>)
        ensures
            match self.cache_table() {
                Some(records) => rows@.len() == records.len() && forall|i: int|
                    0 <= i < records.len() ==> (#[trigger] rows@[i])@ == records[i].row@,
                None => rows@.len() == 0,
            },
    {
        let mut rows: Vec<CacheRow> = Vec::new();
        match &self.cache {
            Some(records) => {
                let mut i: usize = 0;
                while i < records.len()
                    invariant
                        i <= records.len(),
                        rows@.len() == i,
                        forall|j: int| 0 <= j < i ==> (#[trigger] rows@[j])@ == records@[j].row@,
                    decreases records.len() - i,
                {
                    rows.push(records[i].row.duplicate());
                    i += 1;
                }
            },
            None => {},
        }
        rows
    }

    /// The path column of the `index`-th cache row (counting from 0): the
    /// row's path as one JSON array.
    pub fn cache_path_json(&self, index: usize) -> (r: Option<String>)
        ensures
            match self.cache_table() {
                Some(records) => if index < records.len() {
                    r.is_some() && r.unwrap()@ == records[index as int].path_json@
                } else {
                    r.is_none()
                },
                None => r.is_none(),
            },
    {
        match &self.cache {
            Some(records) => if index < records.len() {
                Some(records[index].path_json.clone())
            } else {
                None
            },
            None => None,
        }
    }

    /// The rows of the failed_decodes table in the order of insertion; none
    /// before the table is created.
    pub fn failed_decodes_rows(&self) -> (rows: Vec<FailedDecodesRow>)
        ensures
            match self.failed_table() {
                Some(table) => rows@.len() == table.len() && forall|i: int|
                    0 <= i < table.len() ==> (#[trigger] rows@[i])@ == table[i]@,
                None => rows@.len() == 0,
            },
    {
        let mut rows: Vec<FailedDecodesRow> = Vec::new();
        match &self.failed_decodes {
            Some(table) => {
                let mut i: usize = 0;
                while i < table.len()
                    invariant
                        i <= table.len(),
                        rows@.len() == i,
                        forall|j: int| 0 <= j < i ==> (#[trigger] rows@[j])@ == table@[j]@,
                    decreases table.len() - i,
                {
                    rows.push(table[i].duplicate());
                    i += 1;
                }
            },
            None => {},
        }
        rows
    }

    /// The cache record that answers for `encoded_text`, see [`Self::cached`].
    pub fn lookup(&self, encoded_text: &str) -> (r: Option<&CacheRecord>)
        ensures
            match self.cached(encoded_text@) {
                Some(record) => r.is_some() && *r.unwrap() == record,
                None => r.is_none(),
            },
    {
        match &self.cache {
            Some(records) => {
                let mut i: usize = 0;
                while i < records.len()
                    invariant
                        i <= records.len(),
                        self.cache_table() == Some(records@),
                        first_index(records@, i as int, caches(encoded_text@)).is_none(),
                    decreases records.len() - i,
                {
                    if str_equal(records[i].row.encoded_text.as_str(), encoded_text) {
                        proof {
                            assert(caches(encoded_text@)(records@[i as int]));
                            assert(first_index(records@, i as int + 1, caches(encoded_text@))
                                == Some(i as int));
                            lemma_first_index_stable(
                                records@,
                                i as int + 1,
                                records@.len() as int,
                                caches(encoded_text@),
                            );
                        }
                        return Some(&records[i]);
                    }
                    i += 1;
                }
                None
            },
            None => None,
        }
    }

    /// The cache record that a search may answer `encoded_text` with, see
    /// [`Self::usable`].
    pub fn find_usable(&self, encoded_text: &str) -> (r: Option<&CacheRecord>)
        ensures
            match self.usable(encoded_text@) {
                Some(record) => r.is_some() && *r.unwrap() == record,
                None => r.is_none(),
            },
    {
        match &self.cache {
            Some(records) => {
                let mut i: usize = 0;
                while i < records.len()
                    invariant
                        i <= records.len(),
                        self.cache_table() == Some(records@),
                        first_index(records@, i as int, self.answers(encoded_text@)).is_none(),
                    decreases records.len() - i,
                {
                    let record = &records[i];
                    if str_equal(record.row.encoded_text.as_str(), encoded_text)
                        && record.results.len() > 0 {
                        let checker: &str = record.results[record.results.len() - 1].checker_name;
                        proof {
                            assert(checker@ == identified_by(path_view(record.results@)));
                        }
                        if !self.has_refused(record.row.decoded_text.as_str(), checker) {
                            proof {
                                assert(self.answers(encoded_text@)(records@[i as int]));
                                assert(first_index(
                                    records@,
                                    i as int + 1,
                                    self.answers(encoded_text@),
                                ) == Some(i as int));
                                lemma_first_index_stable(
                                    records@,
                                    i as int + 1,
                                    records@.len() as int,
                                    self.answers(encoded_text@),
                                );
                            }
                            return Some(record);
                        }
                    }
                    assert(!self.answers(encoded_text@)(records@[i as int]));
                    i += 1;
                }
                None
            },
            None => None,
        }
    }

    /// Whether a human has refused `plaintext` as the answer of the checker
    /// named `checker`, see [`Self::refused`].
    pub fn has_refused(&self, plaintext: &str, checker: &str) -> (r: bool)
        ensures
            r == self.refused(plaintext@, checker@),
    {
        match &self.failed_decodes {
            Some(rows) => {
                let mut i: usize = 0;
                while i < rows.len()
                    invariant
                        i <= rows.len(),
                        self.failed_table() == Some(rows@),
                        forall|j: int|
                            0 <= j < i ==> !((#[trigger] rows@[j]).plaintext@ == plaintext@
                                && rows@[j].checker@ == checker@),
                    decreases rows.len() - i,
                {
                    if str_equal(rows[i].plaintext.as_str(), plaintext) && str_equal(
                        rows[i].checker.as_str(),
                        checker,
                    ) {
                        proof {
                            let table = self.failed_table().unwrap();
                            assert(table[i as int].plaintext@ == plaintext@);
                            assert(table[i as int].checker@ == checker@);
                        }
                        return true;
                    }
                    i += 1;
                }
                false
            },
            None => false,
        }
    }
}

/// The form of a timestamp, `YYYY-MM-DD HH:MM:SS`, in the notation of
/// `chrono`.
pub const TIMESTAMP_FORMAT: &'static str = "%Y-%m-%d %T";

/// Helper function to get a timestamp in the form of [`TIMESTAMP_FORMAT`].
///
/// Reads the system clock and has `chrono` format the moment in local time.
/// Nothing is claimed about the text: it depends on the clock and on the time
/// zone of the machine. Only the form above is handed in: on a form that is
/// none the formatter panics.
#[verifier::external_body]
fn get_timestamp(format: &str) -> String
    requires
        format@ == TIMESTAMP_FORMAT@,
{
    let timestamp: chrono::DateTime<chrono::Local> = std::time::SystemTime::now().into();
    timestamp.format(format).to_string()
}

/// Initializes a database with the default schema: a store with both tables,
/// both empty.
pub fn init_database() -> (r: Result<Database, DatabaseError>)
    ensures
        r.is_ok(),
        r.unwrap().wf(),
        r.unwrap().cache_table() == Some(Seq::<CacheRecord>::empty()),
        r.unwrap().failed_table() == Some(Seq::<FailedDecodesRow>::empty()),
{
    let mut db = Database::new();
    let _ = setup_database(&mut db);
    Ok(db)
}

/// Sets the store up: creates each table that is not there yet and leaves the
/// others as they are. Setting up twice is the same as setting up once.
pub fn setup_database(db: &mut Database) -> (r: Result<(), DatabaseError>)
    requires
        old(db).wf(),
    ensures
        r.is_ok(),
        final(db).wf(),
        final(db).cache_table() == Some(
            match old(db).cache_table() {
                Some(records) => records,
                None => Seq::empty(),
            },
        ),
        final(db).failed_table() == Some(
            match old(db).failed_table() {
                Some(rows) => rows,
                None => Seq::empty(),
            },
        ),
{
    if db.cache.is_none() {
        db.cache = Some(Vec::new());
    }
    if db.failed_decodes.is_none() {
        db.failed_decodes = Some(Vec::new());
    }
    Ok(())
}

/// The JSON form of each record of `path`, the empty text where the JSON
/// writer refuses one.
pub fn path_texts(path: &Vec<CrackResult>) -> (texts: Vec<String>)
    ensures
        texts.deep_view() == stored_texts(path_view(path@)),
{
    let mut texts: Vec<String> = Vec::new();
    let mut i: usize = 0;
    while i < path.len()
        invariant
            i <= path.len(),
            texts@.len() == i,
            forall|k: int| 0 <= k < i ==> (#[trigger] texts@[k])@ == stored_text(path@[k]@),
        decreases path.len() - i,
    {
        let text = match path[i].get_json() {
            Ok(json) => json,
            Err(_) => String::new(),
        };
        texts.push(text);
        i += 1;
    }
    assert(texts.deep_view() =~= stored_texts(path_view(path@)));
    texts
}

/// A copy of a path.
pub fn copy_path(path: &Vec<CrackResult>) -> (r: Vec<CrackResult>)
    ensures
        path_view(r@) == path_view(path@),
{
    let mut r: Vec<CrackResult> = Vec::new();
    let mut i: usize = 0;
    while i < path.len()
        invariant
            i <= path.len(),
            r@.len() == i,
            forall|k: int| 0 <= k < i ==> (#[trigger] r@[k])@ == path@[k]@,
        decreases path.len() - i,
    {
        r.push(path[i].duplicate());
        i += 1;
    }
    assert(path_view(r@) =~= path_view(path@));
    r
}

/// There is room for one more record: the cache table exists and its ids have
/// not run out.
pub open spec fn has_room(db: Database) -> bool {
    db.cache_table() matches Some(records) && records.len() < usize::MAX
}

/// Puts the cache record for `cache_entry` into the cache table, given what
/// the JSON writer has made of its path: `path` holds one text for each
/// record and `path_json` is the JSON array of them, or the refusal of the
/// writer.
///
/// Where there is room and the writer has not refused, the record is
/// appended under the next id: it holds the texts of the entry, the given
/// timestamp, row path and path column, a copy of the path, and it is marked
/// successful exactly when the last record of the path is. Otherwise nothing
/// changes.
pub fn store_cache(
    db: &mut Database,
    cache_entry: &CacheEntry,
    timestamp: String,
    path: Vec<String>,
    path_json: Result<String, serde_json::Error>,
) -> (r: Result<(), DatabaseError>)
    requires
        old(db).wf(),
    ensures
        r.is_ok(),
        final(db).wf(),
        final(db).failed_table() == old(db).failed_table(),
        has_room(*old(db)) && path_json.is_ok() ==> exists|record: CacheRecord|
            {
                &&& final(db).cache_table() == Some(
                    #[trigger] old(db).cache_table().unwrap().push(record),
                )
                &&& record.is_row_of(
                    *cache_entry,
                    timestamp@,
                    path.deep_view(),
                    path_json.unwrap()@,
                    old(db).cache_table().unwrap().len() as int,
                )
            },
        !(has_room(*old(db)) && path_json.is_ok()) ==> final(db).cache_table() == old(
            db,
        ).cache_table(),
{
    let path_json = match path_json {
        Ok(text) => text,
        Err(_) => {
            return Ok(());
        },
    };
    let successful = if cache_entry.path.len() > 0 {
        cache_entry.path[cache_entry.path.len() - 1].success
    } else {
        false
    };
    let results = copy_path(&cache_entry.path);
    proof {
        assert(results@.len() == cache_entry.path@.len()) by {
            assert(path_view(results@).len() == path_view(cache_entry.path@).len());
        }
        assert forall|k: int| 0 <= k < results@.len() implies (#[trigger] results@[k])@
            == cache_entry.path@[k]@ by {
            assert(path_view(results@)[k] == path_view(cache_entry.path@)[k]);
        }
    }
    let ghost before = db.cache_table();
    let ghost mut added: Option<CacheRecord> = None;
    match &mut db.cache {
        None => {},
        Some(records) => {
            if records.len() < usize::MAX {
                let record = CacheRecord {
                    row: CacheRow {
                        id: records.len() + 1,
                        encoded_text: cache_entry.encoded_text.clone(),
                        decoded_text: cache_entry.decoded_text.clone(),
                        path,
                        successful,
                        execution_time_ms: cache_entry.execution_time_ms,
                        timestamp,
                    },
                    path_json,
                    results,
                };
                proof {
                    added = Some(record);
                }
                records.push(record);
            }
        },
    }
    proof {
        match added {
            Some(record) => {
                let records = before.unwrap();
                assert(db.cache_table() == Some(records.push(record)));
                assert(record.is_row_of(
                    *cache_entry,
                    timestamp@,
                    path.deep_view(),
                    path_json@,
                    records.len() as int,
                ));
                assert forall|i: int| 0 <= i < records.push(record).len() implies (
                #[trigger] records.push(record)[i]).wf_at(i) by {
                    if i < records.len() {
                        assert(records[i].wf_at(i));
                    }
                }
            },
            None => {
                assert(db.cache_table() == before);
            },
        }
    }
    Ok(())
}

/// The record for `entry` can be written: there is room for it, and the JSON
/// writer makes an array of the texts of its path.
pub open spec fn can_insert(db: Database, entry: CacheEntry) -> bool {
    has_room(db) && json_candidates(Some(stored_texts(path_view(entry.path@)))).is_some()
}

/// The record is the one that `insert_cache_at` writes for `entry` with the
/// timestamp `timestamp` at `position`.
pub open spec fn inserted(
    record: CacheRecord,
    entry: CacheEntry,
    timestamp: Seq<char>,
    position: int,
) -> bool {
    record.is_row_of(
        entry,
        timestamp,
        stored_texts(path_view(entry.path@)),
        json_candidates(Some(stored_texts(path_view(entry.path@)))).unwrap(),
        position,
    )
}

/// Adds a new cache record with the given timestamp to the cache table.
///
/// The path of the entry is written as JSON, record by record and then as one
/// array, and the record is stored, see [`store_cache`]. So where the table
/// exists, the record is appended under the next id, unless the JSON writer
/// refuses the array or the ids have run out; then, and where the table does
/// not exist, nothing changes. Either way the caller is not told: a cache that
/// cannot be written is no reason to fail.
pub fn insert_cache_at(db: &mut Database, cache_entry: &CacheEntry, timestamp: String) -> (r:
    Result<(), DatabaseError>)
    requires
        old(db).wf(),
    ensures
        r.is_ok(),
        final(db).wf(),
        final(db).failed_table() == old(db).failed_table(),
        can_insert(*old(db), *cache_entry) ==> exists|record: CacheRecord|
            {
                &&& final(db).cache_table() == Some(
                    #[trigger] old(db).cache_table().unwrap().push(record),
                )
                &&& inserted(
                    record,
                    *cache_entry,
                    timestamp@,
                    old(db).cache_table().unwrap().len() as int,
                )
                &&& record.agrees()
            },
        !can_insert(*old(db), *cache_entry) ==> final(db).cache_table() == old(db).cache_table(),
{
    let path = path_texts(&cache_entry.path);
    let path_json = json_array(&path);
    let ghost texts = path.deep_view();
    let ghost column = path_json;
    let r = store_cache(db, cache_entry, timestamp, path, path_json);
    proof {
        if can_insert(*old(db), *cache_entry) {
            let records = old(db).cache_table().unwrap();
            let record = choose|record: CacheRecord|
                {
                    &&& db.cache_table() == Some(#[trigger] records.push(record))
                    &&& record.is_row_of(
                        *cache_entry,
                        timestamp@,
                        texts,
                        column.unwrap()@,
                        records.len() as int,
                    )
                };
            assert(stored_texts(path_view(record.results@)) =~= stored_texts(
                path_view(cache_entry.path@),
            ));
            assert(record.agrees());
        }
    }
    r
}

/// Adds a new cache record to the cache table, stamped with the current local
/// time; see [`insert_cache_at`] for what is stored, and when.
pub fn insert_cache(db: &mut Database, cache_entry: &CacheEntry) -> (r: Result<(), DatabaseError>)
    requires
        old(db).wf(),
    ensures
        r.is_ok(),
        final(db).wf(),
        final(db).failed_table() == old(db).failed_table(),
        can_insert(*old(db), *cache_entry) ==> exists|record: CacheRecord, timestamp: Seq<char>|
            {
                &&& final(db).cache_table() == Some(
                    #[trigger] old(db).cache_table().unwrap().push(record),
                )
                &&& #[trigger] inserted(
                    record,
                    *cache_entry,
                    timestamp,
                    old(db).cache_table().unwrap().len() as int,
                )
                &&& record.agrees()
            },
        !can_insert(*old(db), *cache_entry) ==> final(db).cache_table() == old(db).cache_table(),
{
    let timestamp = get_timestamp(TIMESTAMP_FORMAT);
    let ghost stamp = timestamp@;
    let r = insert_cache_at(db, cache_entry, timestamp);
    proof {
        if can_insert(*old(db), *cache_entry) {
            let records = old(db).cache_table().unwrap();
            let record = choose|record: CacheRecord|
                {
                    &&& db.cache_table() == Some(#[trigger] records.push(record))
                    &&& inserted(record, *cache_entry, stamp, records.len() as int)
                    &&& record.agrees()
                };
            assert(inserted(record, *cache_entry, stamp, records.len() as int));
        }
    }
    r
}

/// Searches the store for a cache row that matches the given encoded text.
///
/// On cache hit, returns the first row about that text.
/// On cache miss, returns `None`.
/// Where the cache table has not been created, returns an error.
pub fn read_cache(db: &Database, encoded_text: &String) -> (r: Result<
    Option<CacheRow>,
    DatabaseError,
>)
    ensures
        match db.cache_table() {
            None => r == Err::<Option<CacheRow>, DatabaseError>(DatabaseError::NoCacheTable),
            Some(records) => r.is_ok() && match db.cached(encoded_text@) {
                Some(record) => r.unwrap().is_some() && r.unwrap().unwrap()@ == record.row@,
                None => r.unwrap().is_none(),
            },
        },
{
    if db.cache.is_none() {
        return Err(DatabaseError::NoCacheTable);
    }
    match db.lookup(encoded_text.as_str()) {
        Some(record) => Ok(Some(record.row.duplicate())),
        None => Ok(None),
    }
}

/// The failed_decodes row that answers for `plaintext`: the first one about
/// it.
pub open spec fn first_refusal(db: Database, plaintext: Seq<char>) -> Option<FailedDecodesRow> {
    match db.failed_table() {
        Some(rows) => match first_match(rows, refuses(plaintext)) {
            Some(i) => Some(rows[i]),
            None => None,
        },
        None => None,
    }
}

/// Adds a new decode failure record with the given timestamp to the
/// failed_decodes table: the text that was refused and the name of the checker
/// that had identified it.
///
/// Where the table exists the row is appended under the next id, unless the
/// ids have run out; then, and where the table does not exist, nothing
/// changes. Either way the caller is not told.
pub fn insert_failed_decodes_at(
    db: &mut Database,
    text: &String,
    check_result: &CheckResult,
    timestamp: String,
) -> (r: Result<(), DatabaseError>)
    requires
        old(db).wf(),
    ensures
        r.is_ok(),
        final(db).wf(),
        final(db).cache_table() == old(db).cache_table(),
        match old(db).failed_table() {
            None => final(db).failed_table().is_none(),
            Some(rows) => if rows.len() < usize::MAX {
                exists|row: FailedDecodesRow|
                    {
                        &&& final(db).failed_table() == Some(#[trigger] rows.push(row))
                        &&& row.id == rows.len() + 1
                        &&& row.plaintext@ == text@
                        &&& row.checker@ == check_result.checker_name@
                        &&& row.timestamp@ == timestamp@
                    }
            } else {
                final(db).failed_table() == Some(rows)
            },
        },
{
    match &mut db.failed_decodes {
        None => {},
        Some(rows) => {
            if rows.len() < usize::MAX {
                let ghost before = rows@;
                let row = FailedDecodesRow {
                    id: rows.len() + 1,
                    plaintext: text.clone(),
                    checker: check_result.checker_name.to_owned(),
                    timestamp,
                };
                rows.push(row);
                proof {
                    assert(rows@ == before.push(row));
                }
            }
        },
    }
    Ok(())
}

/// Adds a new decode failure record to the failed_decodes table, stamped with
/// the current local time; see [`insert_failed_decodes_at`] for what is
/// stored.
pub fn insert_failed_decodes(db: &mut Database, text: &String, check_result: &CheckResult) -> (r:
    Result<(), DatabaseError>)
    requires
        old(db).wf(),
    ensures
        r.is_ok(),
        final(db).wf(),
        final(db).cache_table() == old(db).cache_table(),
        match old(db).failed_table() {
            None => final(db).failed_table().is_none(),
            Some(rows) => if rows.len() < usize::MAX {
                exists|row: FailedDecodesRow|
                    {
                        &&& final(db).failed_table() == Some(#[trigger] rows.push(row))
                        &&& row.id == rows.len() + 1
                        &&& row.plaintext@ == text@
                        &&& row.checker@ == check_result.checker_name@
                    }
            } else {
                final(db).failed_table() == Some(rows)
            },
        },
{
    let timestamp = get_timestamp(TIMESTAMP_FORMAT);
    insert_failed_decodes_at(db, text, check_result, timestamp)
}

/// Searches the store for a failed_decodes row that matches the given
/// plaintext.
///
/// On match, returns the first row about that plaintext.
/// Otherwise, returns `None`.
/// Where the failed_decodes table has not been created, returns an error.
pub fn read_failed_decodes(db: &Database, plaintext: &String) -> (r: Result<
    Option<FailedDecodesRow>,
    DatabaseError,
>)
    ensures
        match db.failed_table() {
            None => r == Err::<Option<FailedDecodesRow>, DatabaseError>(
                DatabaseError::NoFailedDecodesTable,
            ),
            Some(rows) => r.is_ok() && match first_refusal(*db, plaintext@) {
                Some(row) => r.unwrap().is_some() && r.unwrap().unwrap()@ == row@,
                None => r.unwrap().is_none(),
            },
        },
{
    match &db.failed_decodes {
        None => Err(DatabaseError::NoFailedDecodesTable),
        Some(rows) => {
            let mut i: usize = 0;
            while i < rows.len()
                invariant
                    i <= rows.len(),
                    db.failed_table() == Some(rows@),
                    first_index(rows@, i as int, refuses(plaintext@)).is_none(),
                decreases rows.len() - i,
            {
                if str_equal(rows[i].plaintext.as_str(), plaintext.as_str()) {
                    proof {
                        assert(refuses(plaintext@)(rows@[i as int]));
                        assert(first_index(rows@, i as int + 1, refuses(plaintext@)) == Some(
                            i as int,
                        ));
                        lemma_first_index_stable(
                            rows@,
                            i as int + 1,
                            rows@.len() as int,
                            refuses(plaintext@),
                        );
                    }
                    return Ok(Some(rows[i].duplicate()));
                }
                i += 1;
            }
            Ok(None)
        },
    }
}

} // verus!
