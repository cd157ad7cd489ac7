use ciphey::checkers::athena::Athena;
use ciphey::checkers::checker_result::CheckResult;
use ciphey::checkers::checker_type::{Check, Checker};
use ciphey::checkers::english::EnglishChecker;
use ciphey::decoders::crack_results::CrackResult;
use ciphey::decoders::interface::Decoder;
use ciphey::storage::database::{
    init_database, insert_cache, insert_cache_at, insert_failed_decodes, insert_failed_decodes_at,
    read_cache, read_failed_decodes, setup_database, store_cache, Database, DatabaseError,
};
use ciphey::storage::rows::{CacheEntry, CacheRow, FailedDecodesRow};
use ciphey::storage::schema::{
    cache_columns, create_index, create_table, failed_decodes_columns, setup_statements,
};
use std::marker::PhantomData;

struct MockDecoder;

fn mock_decoder() -> Decoder<MockDecoder> {
    Decoder {
        name: "MockEncoding",
        description: "A mocked decoder for testing",
        link: "https://en.wikipedia.org/wiki/Mock_object",
        tags: vec!["mock", "url", "decoder", "base"],
        popularity: 100,
        phantom: PhantomData,
    }
}

fn athena_check_result() -> CheckResult {
    let checker_used = Checker::<Athena>::new();
    CheckResult {
        is_identified: false,
        text: "".to_string(),
        checker_name: checker_used.name,
        checker_description: checker_used.description,
        description: "".to_string(),
        link: checker_used.link,
    }
}

fn english_check_result() -> CheckResult {
    let checker_used = Checker::<EnglishChecker>::new();
    CheckResult {
        is_identified: false,
        text: "".to_string(),
        checker_name: checker_used.name,
        checker_description: checker_used.description,
        description: "".to_string(),
        link: checker_used.link,
    }
}

#[test]
fn database_initialized() {
    let db_result = init_database();
    assert!(db_result.is_ok());
}

#[test]
fn cache_table_created() {
    let db = init_database().unwrap();
    let names = db.table_names();
    assert_eq!(names.iter().filter(|name| **name == "cache").count(), 1);
}

#[test]
fn correct_cache_table_schema() {
    let columns = cache_columns();
    let name_list: Vec<String> = columns.iter().map(|c| c.name.to_string()).collect();
    assert_eq!(name_list[0], "id");
    assert_eq!(name_list[1], "encoded_text");
    assert_eq!(name_list[2], "decoded_text");
    assert_eq!(name_list[3], "path");
    assert_eq!(name_list[4], "successful");
    assert_eq!(name_list[5], "execution_time_ms");
    assert_eq!(name_list[6], "timestamp");

    let type_list: Vec<String> = columns.iter().map(|c| c.kind.to_string()).collect();
    assert_eq!(type_list[0], "INTEGER");
    assert_eq!(type_list[1], "TEXT");
    assert_eq!(type_list[2], "TEXT");
    assert_eq!(type_list[3], "JSON");
    assert_eq!(type_list[4], "BOOLEAN");
    assert_eq!(type_list[5], "INTEGER");
    assert_eq!(type_list[6], "DATETIME");
}

#[test]
fn correct_failed_decodes_table_schema() {
    let columns = failed_decodes_columns();
    let name_list: Vec<String> = columns.iter().map(|c| c.name.to_string()).collect();
    assert_eq!(name_list[0], "id");
    assert_eq!(name_list[1], "plaintext");
    assert_eq!(name_list[2], "checker");
    assert_eq!(name_list[3], "timestamp");

    let type_list: Vec<String> = columns.iter().map(|c| c.kind.to_string()).collect();
    assert_eq!(type_list[0], "INTEGER");
    assert_eq!(type_list[1], "TEXT");
    assert_eq!(type_list[2], "TEXT");
    assert_eq!(type_list[3], "DATETIME");
}

#[test]
fn cache_record_empty_success() {
    let db = init_database().unwrap();
    let empty_rows = db.cache_rows();
    assert_eq!(empty_rows.len(), 0);
}

#[test]
fn cache_record_entry_success() {
    let mut db = init_database().unwrap();

    let encoded_text = String::from("aGVsbG8gd29ybGQK");
    let decoded_text = String::from("hello world");

    let mock_decoder = mock_decoder();
    let mut mock_crack_result = CrackResult::new(&mock_decoder, encoded_text.clone());
    mock_crack_result.success = true;
    mock_crack_result.unencrypted_text = Some(vec![decoded_text.clone()]);

    let mut expected_cache_row = CacheRow {
        id: 1,
        encoded_text: encoded_text.clone(),
        decoded_text: decoded_text.clone(),
        path: match mock_crack_result.get_json() {
            Ok(json) => vec![json],
            Err(_) => vec![],
        },
        successful: true,
        execution_time_ms: 100,
        timestamp: String::new(),
    };

    let cache_entry = CacheEntry {
        encoded_text: encoded_text.clone(),
        decoded_text: decoded_text.clone(),
        path: vec![mock_crack_result.clone()],
        execution_time_ms: 100,
    };

    let _row_result = insert_cache(&mut db, &cache_entry);

    let rows = db.cache_rows();
    let cache_row: &CacheRow = &rows[0];
    expected_cache_row.timestamp = cache_row.timestamp.clone();
    assert_eq!(*cache_row, expected_cache_row);
    assert_eq!(rows.len(), 1);
}

#[test]
fn cache_record_2_entries_success() {
    let mut db = init_database().unwrap();

    let encoded_text_1 = String::from("aGVsbG8gd29ybGQK");
    let decoded_text_1 = String::from("hello world");

    let encoded_text_2 = String::from("d29ybGQgaGVsbG8K");
    let decoded_text_2 = String::from("world hello");

    let mock_decoder = mock_decoder();
    let mut mock_crack_result_1 = CrackResult::new(&mock_decoder, encoded_text_1.clone());
    mock_crack_result_1.success = true;
    mock_crack_result_1.unencrypted_text = Some(vec![decoded_text_1.clone()]);

    let mut expected_cache_row_1 = CacheRow {
        id: 1,
        encoded_text: encoded_text_1.clone(),
        decoded_text: decoded_text_1.clone(),
        path: match mock_crack_result_1.get_json() {
            Ok(json) => vec![json],
            Err(_) => vec![],
        },
        successful: true,
        execution_time_ms: 100,
        timestamp: String::new(),
    };

    let mut mock_crack_result_2 = CrackResult::new(&mock_decoder, encoded_text_2.clone());
    mock_crack_result_2.success = true;
    mock_crack_result_2.unencrypted_text = Some(vec![decoded_text_2.clone()]);

    let mut expected_cache_row_2 = CacheRow {
        id: 2,
        encoded_text: encoded_text_2.clone(),
        decoded_text: decoded_text_2.clone(),
        path: match mock_crack_result_2.get_json() {
            Ok(json) => vec![json],
            Err(_) => vec![],
        },

        successful: true,
        execution_time_ms: 100,
        timestamp: String::new(),
    };

    let _row_result = insert_cache(
        &mut db,
        &CacheEntry {
            encoded_text: encoded_text_1.clone(),
            decoded_text: decoded_text_1.clone(),
            path: vec![mock_crack_result_1.clone()],
            execution_time_ms: 100,
        },
    );

    let _row_result = insert_cache(
        &mut db,
        &CacheEntry {
            encoded_text: encoded_text_2.clone(),
            decoded_text: decoded_text_2.clone(),
            path: vec![mock_crack_result_2.clone()],
            execution_time_ms: 100,
        },
    );

    let rows = db.cache_rows();
    let cache_row: &CacheRow = &rows[0];
    expected_cache_row_1.timestamp = cache_row.timestamp.clone();
    assert_eq!(*cache_row, expected_cache_row_1);
    let cache_row: &CacheRow = &rows[1];
    expected_cache_row_2.timestamp = cache_row.timestamp.clone();
    assert_eq!(*cache_row, expected_cache_row_2);
}

#[test]
fn cache_record_read_hit() {
    let mut db = init_database().unwrap();

    let encoded_text = String::from("aGVsbG8gd29ybGQK");
    let decoded_text = String::from("hello world");

    let mock_decoder = mock_decoder();
    let mut mock_crack_result = CrackResult::new(&mock_decoder, encoded_text.clone());
    mock_crack_result.success = true;
    mock_crack_result.unencrypted_text = Some(vec![decoded_text.clone()]);

    let mut expected_cache_row = CacheRow {
        id: 1,
        encoded_text: encoded_text.clone(),
        decoded_text: decoded_text.clone(),
        path: match mock_crack_result.get_json() {
            Ok(json) => vec![json],
            Err(_) => vec![],
        },
        successful: true,
        execution_time_ms: 100,
        timestamp: String::new(),
    };

    let _row_result = insert_cache(
        &mut db,
        &CacheEntry {
            encoded_text: encoded_text.clone(),
            decoded_text: decoded_text.clone(),
            path: vec![mock_crack_result.clone()],
            execution_time_ms: 100,
        },
    );

    let cache_result = read_cache(&db, &encoded_text);
    assert!(cache_result.is_ok());
    let cache_row_result: Option<CacheRow> = cache_result.unwrap();
    assert!(cache_row_result.is_some());
    let cache_row = cache_row_result.unwrap();
    expected_cache_row.timestamp = cache_row.timestamp.clone();
    assert_eq!(cache_row, expected_cache_row);
}

#[test]
fn cache_multiple_record_read_hit() {
    let mut db = init_database().unwrap();

    let encoded_text_1 = String::from("aGVsbG8gd29ybGQK");
    let decoded_text_1 = String::from("hello world");

    let encoded_text_2 = String::from("d29ybGQgaGVsbG8K");
    let decoded_text_2 = String::from("world hello");

    let mock_decoder = mock_decoder();
    let mut mock_crack_result_1 = CrackResult::new(&mock_decoder, encoded_text_1.clone());
    mock_crack_result_1.success = true;
    mock_crack_result_1.unencrypted_text = Some(vec![decoded_text_1.clone()]);

    let mut expected_cache_row_1 = CacheRow {
        id: 1,
        encoded_text: encoded_text_1.clone(),
        decoded_text: decoded_text_1.clone(),
        path: match mock_crack_result_1.get_json() {
            Ok(json) => vec![json],
            Err(_) => vec![],
        },
        successful: true,
        execution_time_ms: 100,
        timestamp: String::new(),
    };

    let mut mock_crack_result_2 = CrackResult::new(&mock_decoder, encoded_text_2.clone());
    mock_crack_result_2.success = true;
    mock_crack_result_2.unencrypted_text = Some(vec![decoded_text_2.clone()]);

    let mut expected_cache_row_2 = CacheRow {
        id: 2,
        encoded_text: encoded_text_2.clone(),
        decoded_text: decoded_text_2.clone(),
        path: match mock_crack_result_2.get_json() {
            Ok(json) => vec![json],
            Err(_) => vec![],
        },
        successful: true,
        execution_time_ms: 100,
        timestamp: String::new(),
    };

    let _row_result = insert_cache(
        &mut db,
        &CacheEntry {
            encoded_text: encoded_text_1.clone(),
            decoded_text: decoded_text_1.clone(),
            path: vec![mock_crack_result_1.clone()],
            execution_time_ms: 100,
        },
    );

    let _row_result = insert_cache(
        &mut db,
        &CacheEntry {
            encoded_text: encoded_text_2.clone(),
            decoded_text: decoded_text_2.clone(),
            path: vec![mock_crack_result_2.clone()],
            execution_time_ms: 100,
        },
    );

    let cache_result = read_cache(&db, &encoded_text_1);
    assert!(cache_result.is_ok());
    let cache_row_result: Option<CacheRow> = cache_result.unwrap();
    assert!(cache_row_result.is_some());
    let cache_row = cache_row_result.unwrap();
    expected_cache_row_1.timestamp = cache_row.timestamp.clone();
    assert_eq!(cache_row, expected_cache_row_1);

    let cache_result = read_cache(&db, &encoded_text_2);
    assert!(cache_result.is_ok());
    let cache_row_result: Option<CacheRow> = cache_result.unwrap();
    assert!(cache_row_result.is_some());
    let cache_row = cache_row_result.unwrap();
    expected_cache_row_2.timestamp = cache_row.timestamp.clone();
    assert_eq!(cache_row, expected_cache_row_2);
}

#[test]
fn cache_empty_read_miss() {
    let db = init_database().unwrap();

    let encoded_text = String::from("aGVsbG8gd29ybGQK");

    let cache_result = read_cache(&db, &encoded_text);
    assert!(cache_result.is_ok());
    let cache_row: Option<CacheRow> = cache_result.unwrap();
    assert!(cache_row.is_none());
}

#[test]
fn cache_multiple_record_read_miss() {
    let mut db = init_database().unwrap();

    let encoded_text_1 = String::from("aGVsbG8gd29ybGQK");
    let decoded_text_1 = String::from("hello world");

    let encoded_text_2 = String::from("d29ybGQgaGVsbG8K");
    let _decoded_text_2 = String::from("world hello");

    let mock_decoder = mock_decoder();
    let mut mock_crack_result_1 = CrackResult::new(&mock_decoder, encoded_text_1.clone());
    mock_crack_result_1.success = true;
    mock_crack_result_1.unencrypted_text = Some(vec![decoded_text_1.clone()]);

    let mock_crack_result_2 = CrackResult::new(&mock_decoder, encoded_text_1.clone());
    mock_crack_result_1.success = true;
    mock_crack_result_1.unencrypted_text = Some(vec![decoded_text_1.clone()]);

    let _row_result = insert_cache(
        &mut db,
        &CacheEntry {
            encoded_text: encoded_text_1.clone(),
            decoded_text: decoded_text_1.clone(),
            path: vec![mock_crack_result_1.clone()],
            execution_time_ms: 100,
        },
    );

    let _row_result = insert_cache(
        &mut db,
        &CacheEntry {
            encoded_text: encoded_text_1.clone(),
            decoded_text: decoded_text_1.clone(),
            path: vec![mock_crack_result_2.clone()],
            execution_time_ms: 100,
        },
    );

    let cache_result = read_cache(&db, &encoded_text_2);
    assert!(cache_result.is_ok());
    let cache_row: Option<CacheRow> = cache_result.unwrap();
    assert!(cache_row.is_none());
}

#[test]
fn insert_failed_decodes_success() {
    let mut db = init_database().unwrap();

    let encoded_text = String::from("plaintext");
    let check_result = athena_check_result();

    let mut expected_row = FailedDecodesRow {
        id: 1,
        plaintext: encoded_text.clone(),
        checker: String::from(check_result.checker_name),
        timestamp: String::new(),
    };

    let result = insert_failed_decodes(&mut db, &encoded_text, &check_result);
    assert!(result.is_ok());

    let rows = db.failed_decodes_rows();
    assert_eq!(rows.len(), 1);
    let row: &FailedDecodesRow = &rows[0];
    expected_row.timestamp = row.timestamp.clone();
    assert_eq!(*row, expected_row);
}

#[test]
fn insert_two_failed_decodes_success() {
    let mut db = init_database().unwrap();

    let encoded_text_1 = String::from("plaintext1");
    let check_result_1 = athena_check_result();

    let mut expected_row_1 = FailedDecodesRow {
        id: 1,
        plaintext: encoded_text_1.clone(),
        checker: String::from(check_result_1.checker_name),
        timestamp: String::new(),
    };

    let result = insert_failed_decodes(&mut db, &encoded_text_1, &check_result_1);
    assert!(result.is_ok());

    let encoded_text_2 = String::from("plaintext2");
    let check_result_2 = english_check_result();

    let mut expected_row_2 = FailedDecodesRow {
        id: 2,
        plaintext: encoded_text_2.clone(),
        checker: String::from(check_result_2.checker_name),
        timestamp: String::new(),
    };

    let result = insert_failed_decodes(&mut db, &encoded_text_2, &check_result_2);
    assert!(result.is_ok());

    let rows = db.failed_decodes_rows();
    assert_eq!(rows.len(), 2);
    let row: &FailedDecodesRow = &rows[0];
    expected_row_1.timestamp = row.timestamp.clone();
    assert_eq!(*row, expected_row_1);
    let row: &FailedDecodesRow = &rows[1];
    expected_row_2.timestamp = row.timestamp.clone();
    assert_eq!(*row, expected_row_2);
}

#[test]
fn failed_decode_read_success() {
    let mut db = init_database().unwrap();

    let encoded_text = String::from("plaintext");
    let check_result = athena_check_result();

    let mut expected_row = FailedDecodesRow {
        id: 1,
        plaintext: encoded_text.clone(),
        checker: String::from(check_result.checker_name),
        timestamp: String::new(),
    };

    let _result = insert_failed_decodes(&mut db, &encoded_text, &check_result);

    let row_result = read_failed_decodes(&db, &encoded_text);
    assert!(row_result.is_ok());
    let row_result = row_result.unwrap();
    assert!(row_result.is_some());
    let row = row_result.unwrap();
    expected_row.timestamp = row.timestamp.clone();
    assert_eq!(row, expected_row);
}

#[test]
fn failed_decode_read_2_success() {
    let mut db = init_database().unwrap();

    let encoded_text_1 = String::from("plaintext");
    let check_result_1 = athena_check_result();

    let mut expected_row_1 = FailedDecodesRow {
        id: 1,
        plaintext: encoded_text_1.clone(),
        checker: String::from(check_result_1.checker_name),
        timestamp: String::new(),
    };

    let _result = insert_failed_decodes(&mut db, &encoded_text_1, &check_result_1);

    let encoded_text_2 = String::from("plaintext2");
    let check_result_2 = english_check_result();

    let mut expected_row_2 = FailedDecodesRow {
        id: 2,
        plaintext: encoded_text_2.clone(),
        checker: String::from(check_result_2.checker_name),
        timestamp: String::new(),
    };

    let _result = insert_failed_decodes(&mut db, &encoded_text_2, &check_result_2);

    let row_result = read_failed_decodes(&db, &encoded_text_1);
    assert!(row_result.is_ok());
    let row_result = row_result.unwrap();
    assert!(row_result.is_some());
    let row = row_result.unwrap();
    expected_row_1.timestamp = row.timestamp.clone();
    assert_eq!(row, expected_row_1);

    let row_result = read_failed_decodes(&db, &encoded_text_2);
    assert!(row_result.is_ok());
    let row_result = row_result.unwrap();
    assert!(row_result.is_some());
    let row = row_result.unwrap();
    expected_row_2.timestamp = row.timestamp.clone();
    assert_eq!(row, expected_row_2);
}

#[test]
fn failed_decodes_read_miss() {
    let mut db = init_database().unwrap();

    let encoded_text = String::from("plaintext");
    let check_result = athena_check_result();

    let _result = insert_failed_decodes(&mut db, &encoded_text, &check_result);
    let row_result = read_failed_decodes(&db, &String::from("not plaintext"));
    assert!(row_result.is_ok());
    assert!(row_result.unwrap().is_none());
}

#[test]
fn store_without_tables_cannot_be_read() {
    let db = Database::new();
    assert_eq!(db.table_names().len(), 0);
    assert_eq!(
        read_cache(&db, &String::from("aGVsbG8gd29ybGQK")),
        Err(DatabaseError::NoCacheTable)
    );
    assert_eq!(
        read_failed_decodes(&db, &String::from("plaintext")),
        Err(DatabaseError::NoFailedDecodesTable)
    );
    assert_eq!(DatabaseError::NoCacheTable.message(), "no such table: cache");
    assert_eq!(
        DatabaseError::NoFailedDecodesTable.message(),
        "no such table: failed_decodes"
    );
}

#[test]
fn store_without_tables_swallows_inserts() {
    let mut db = Database::new();
    let entry = CacheEntry {
        encoded_text: String::from("aGVsbG8gd29ybGQK"),
        decoded_text: String::from("hello world"),
        path: vec![],
        execution_time_ms: 100,
    };
    assert!(insert_cache(&mut db, &entry).is_ok());
    assert!(insert_failed_decodes(&mut db, &String::from("plaintext"), &athena_check_result()).is_ok());
    assert_eq!(db.cache_rows().len(), 0);
    assert_eq!(db.failed_decodes_rows().len(), 0);
    assert_eq!(db.table_names().len(), 0);
}

#[test]
fn setup_is_idempotent_and_keeps_rows() {
    let mut db = Database::new();
    assert!(setup_database(&mut db).is_ok());
    assert_eq!(db.table_names(), vec!["cache", "failed_decodes"]);
    let text = String::from("plaintext");
    let _ = insert_failed_decodes_at(
        &mut db,
        &text,
        &athena_check_result(),
        String::from("2024-01-02 03:04:05"),
    );
    assert!(setup_database(&mut db).is_ok());
    assert_eq!(db.table_names(), vec!["cache", "failed_decodes"]);
    let rows = db.failed_decodes_rows();
    assert_eq!(rows.len(), 1);
    assert_eq!(
        rows[0],
        FailedDecodesRow {
            id: 1,
            plaintext: String::from("plaintext"),
            checker: String::from("Athena Checker"),
            timestamp: String::from("2024-01-02 03:04:05"),
        }
    );
}

#[test]
fn cache_row_of_an_entry_without_path_is_not_successful() {
    let mut db = init_database().unwrap();
    let entry = CacheEntry {
        encoded_text: String::from("abc"),
        decoded_text: String::from("def"),
        path: vec![],
        execution_time_ms: 7,
    };
    let _ = insert_cache_at(&mut db, &entry, String::from("2024-01-02 03:04:05"));
    let rows = db.cache_rows();
    assert_eq!(
        rows[0],
        CacheRow {
            id: 1,
            encoded_text: String::from("abc"),
            decoded_text: String::from("def"),
            path: vec![],
            successful: false,
            execution_time_ms: 7,
            timestamp: String::from("2024-01-02 03:04:05"),
        }
    );
    assert_eq!(db.cache_path_json(0), Some(String::from("[]")));
    assert_eq!(db.cache_path_json(1), None);
}

#[test]
fn cache_read_returns_the_first_row_about_a_text() {
    let mut db = init_database().unwrap();
    let mock = mock_decoder();
    let mut first = CrackResult::new(&mock, String::from("abc"));
    first.unencrypted_text = Some(vec![String::from("one")]);
    let mut second = CrackResult::new(&mock, String::from("abc"));
    second.unencrypted_text = Some(vec![String::from("two")]);
    second.success = true;
    for (decoded, record, ms) in [("one", first, 1), ("two", second, 2)] {
        let entry = CacheEntry {
            encoded_text: String::from("abc"),
            decoded_text: String::from(decoded),
            path: vec![record],
            execution_time_ms: ms,
        };
        let _ = insert_cache_at(&mut db, &entry, String::from("2024-01-02 03:04:05"));
    }
    let row = read_cache(&db, &String::from("abc")).unwrap().unwrap();
    assert_eq!(row.id, 1);
    assert_eq!(row.decoded_text, "one");
    assert!(!row.successful);
    let rows = db.cache_rows();
    assert_eq!(rows[1].id, 2);
    assert!(rows[1].successful);
    assert_eq!(
        db.cache_path_json(1).unwrap(),
        serde_json::to_string(&rows[1].path).unwrap()
    );
}

#[test]
fn timestamp_has_the_documented_shape() {
    let mut db = init_database().unwrap();
    let _ = insert_failed_decodes(&mut db, &String::from("plaintext"), &athena_check_result());
    let rows = db.failed_decodes_rows();
    let stamp: Vec<char> = rows[0].timestamp.chars().collect();
    // YYYY-MM-DD HH:MM:SS
    assert_eq!(stamp.len(), 19);
    assert_eq!(stamp[4], '-');
    assert_eq!(stamp[7], '-');
    assert_eq!(stamp[10], ' ');
    assert_eq!(stamp[13], ':');
    assert_eq!(stamp[16], ':');
}

#[test]
fn failed_decodes_are_refused_per_checker() {
    let mut db = init_database().unwrap();
    let _ = insert_failed_decodes(&mut db, &String::from("plaintext"), &athena_check_result());
    assert!(db.has_refused("plaintext", "Athena Checker"));
    assert!(!db.has_refused("plaintext", "English Checker"));
    assert!(!db.has_refused("other", "Athena Checker"));
}

#[test]
fn setup_statements_are_the_schema() {
    let statements = setup_statements();
    assert_eq!(statements.len(), 4);
    assert_eq!(
        statements[0],
        "CREATE TABLE IF NOT EXISTS cache (id INTEGER PRIMARY KEY AUTOINCREMENT, encoded_text TEXT NOT NULL, decoded_text TEXT NOT NULL, path JSON NOT NULL, successful BOOLEAN NOT NULL, execution_time_ms INTEGER NOT NULL, timestamp DATETIME DEFAULT CURRENT_TIMESTAMP);"
    );
    assert_eq!(
        statements[1],
        "CREATE INDEX IF NOT EXISTS idx_cache_encoded_text ON cache(encoded_text);"
    );
    assert_eq!(
        statements[2],
        "CREATE TABLE IF NOT EXISTS failed_decodes (id INTEGER PRIMARY KEY AUTOINCREMENT, plaintext TEXT NOT NULL, checker TEXT NOT NULL, timestamp DATETIME DEFAULT CURRENT_TIMESTAMP);"
    );
    assert_eq!(
        statements[3],
        "CREATE INDEX IF NOT EXISTS idx_stats_plaintext ON failed_decodes(plaintext);"
    );
    assert_eq!(create_table("t", &vec![]), "CREATE TABLE IF NOT EXISTS t ();");
    assert_eq!(create_index("i", "t", "c"), "CREATE INDEX IF NOT EXISTS i ON t(c);");
}

#[test]
fn setup_statements_run_on_sqlite() {
    let conn = rusqlite::Connection::open_in_memory().unwrap();
    for statement in setup_statements() {
        conn.execute(&statement, ()).unwrap();
    }
    // A second run does no harm
    for statement in setup_statements() {
        conn.execute(&statement, ()).unwrap();
    }
    let mut stmt = conn.prepare("PRAGMA table_info(cache);").unwrap();
    let names: Vec<String> = stmt
        .query_map([], |row| row.get::<usize, String>(1))
        .unwrap()
        .map(|row| row.unwrap())
        .collect();
    let expected: Vec<String> = cache_columns().iter().map(|c| c.name.to_string()).collect();
    assert_eq!(names, expected);
    let mut stmt = conn.prepare("PRAGMA table_info(failed_decodes);").unwrap();
    let kinds: Vec<String> = stmt
        .query_map([], |row| row.get::<usize, String>(2))
        .unwrap()
        .map(|row| row.unwrap())
        .collect();
    let expected: Vec<String> = failed_decodes_columns()
        .iter()
        .map(|c| c.kind.to_string())
        .collect();
    assert_eq!(kinds, expected);
}

#[test]
fn record_is_stored_as_the_writer_left_it() {
    let mut db = init_database().unwrap();
    let mock = mock_decoder();
    let mut record = CrackResult::new(&mock, String::from("abc"));
    record.success = true;
    let entry = CacheEntry {
        encoded_text: String::from("abc"),
        decoded_text: String::from("def"),
        path: vec![record],
        execution_time_ms: 9,
    };
    // The writer has refused: nothing is stored
    let refusal = serde_json::from_str::<u8>("x").unwrap_err();
    assert!(store_cache(
        &mut db,
        &entry,
        String::from("t0"),
        vec![String::from("p")],
        Err(refusal)
    )
    .is_ok());
    assert_eq!(db.cache_rows().len(), 0);
    // The writer has written: the row holds what it was given
    assert!(store_cache(
        &mut db,
        &entry,
        String::from("t1"),
        vec![String::from("p")],
        Ok(String::from("[\"p\"]"))
    )
    .is_ok());
    assert_eq!(
        db.cache_rows(),
        vec![CacheRow {
            id: 1,
            encoded_text: String::from("abc"),
            decoded_text: String::from("def"),
            path: vec![String::from("p")],
            successful: true,
            execution_time_ms: 9,
            timestamp: String::from("t1"),
        }]
    );
    assert_eq!(db.cache_path_json(0), Some(String::from("[\"p\"]")));
    // Without the table nothing is stored either
    let mut bare = Database::new();
    assert!(store_cache(
        &mut bare,
        &entry,
        String::from("t2"),
        vec![],
        Ok(String::from("[]"))
    )
    .is_ok());
    assert_eq!(bare.cache_rows().len(), 0);
    assert_eq!(bare.table_names().len(), 0);
}
