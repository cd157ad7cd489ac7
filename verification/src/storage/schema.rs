//! The schema of the knowledge store in SQL: the columns of the two tables
//! and the statements that create, fill and query them. Whoever persists the
//! store in a relational database runs these statements.

use vstd::prelude::*;
use vstd::string::StringExecFns;

verus! {

/// One column of a table.
#[derive(Debug, Clone, Copy)]
pub struct Column {
    /// The name of the column
    pub name: &'static str,
    /// The declared type of the column
    pub kind: &'static str,
    /// What follows the type in the declaration; may be empty
    pub constraint: &'static str,
}

/// The name of the cache table.
pub const CACHE_TABLE: &'static str = "cache";

/// The name of the failed_decodes table.
pub const FAILED_DECODES_TABLE: &'static str = "failed_decodes";

/// The statement that adds a row to the cache table. Its parameters are the
/// encoded text, the decoded text, the path as a JSON array, whether the
/// decoding was successful, the execution time in milliseconds and the
/// timestamp.
pub const INSERT_CACHE: &'static str = "INSERT INTO cache (encoded_text, decoded_text, path, successful, execution_time_ms, timestamp) VALUES ($1, $2, $3, $4, $5, $6)";

/// The statement that adds a row to the failed_decodes table. Its parameters
/// are the plaintext, the name of the checker and the timestamp.
pub const INSERT_FAILED_DECODES: &'static str = "INSERT INTO failed_decodes (plaintext, checker, timestamp) VALUES ($1, $2, $3)";

/// The query for the cache rows about an encoded text, its only parameter.
pub const SELECT_CACHE: &'static str = "SELECT * FROM cache WHERE encoded_text = $1";

/// The query for the failed_decodes rows about a plaintext, its only
/// parameter.
pub const SELECT_FAILED_DECODES: &'static str = "SELECT * FROM failed_decodes WHERE plaintext = $1";

/// The declaration of a column: name, type and, where there is one, the
/// constraint, with single spaces between them.
pub open spec fn column_sql(column: Column) -> Seq<char> {
    if column.constraint@.len() == 0 {
        column.name@ + " "@ + column.kind@
    } else {
        column.name@ + " "@ + column.kind@ + " "@ + column.constraint@
    }
}

/// The declarations of the first `n` of `columns`, with `, ` between them.
pub open spec fn columns_sql(columns: Seq<Column>, n: int) -> Seq<char>
    decreases n,
{
    if n <= 0 {
        Seq::empty()
    } else if n == 1 {
        column_sql(columns[0])
    } else {
        columns_sql(columns, n - 1) + ", "@ + column_sql(columns[n - 1])
    }
}

/// The statement that creates `table` with `columns` unless it exists.
pub open spec fn create_table_sql(table: Seq<char>, columns: Seq<Column>) -> Seq<char> {
    "CREATE TABLE IF NOT EXISTS "@ + table + " ("@ + columns_sql(columns, columns.len() as int)
        + ");"@
}

/// The statement that creates the index `index` on `column` of `table`
/// unless it exists.
pub open spec fn create_index_sql(index: Seq<char>, table: Seq<char>, column: Seq<char>) -> Seq<
    char,
> {
    "CREATE INDEX IF NOT EXISTS "@ + index + " ON "@ + table + "("@ + column + ");"@
}

/// The columns of the cache table, in order.
pub open spec fn cache_schema() -> Seq<Column> {
    seq![
        Column { name: "id", kind: "INTEGER", constraint: "PRIMARY KEY AUTOINCREMENT" },
        Column { name: "encoded_text", kind: "TEXT", constraint: "NOT NULL" },
        Column { name: "decoded_text", kind: "TEXT", constraint: "NOT NULL" },
        Column { name: "path", kind: "JSON", constraint: "NOT NULL" },
        Column { name: "successful", kind: "BOOLEAN", constraint: "NOT NULL" },
        Column { name: "execution_time_ms", kind: "INTEGER", constraint: "NOT NULL" },
        Column { name: "timestamp", kind: "DATETIME", constraint: "DEFAULT CURRENT_TIMESTAMP" },
    ]
}

/// The columns of the failed_decodes table, in order.
pub open spec fn failed_decodes_schema() -> Seq<Column> {
    seq![
        Column { name: "id", kind: "INTEGER", constraint: "PRIMARY KEY AUTOINCREMENT" },
        Column { name: "plaintext", kind: "TEXT", constraint: "NOT NULL" },
        Column { name: "checker", kind: "TEXT", constraint: "NOT NULL" },
        Column { name: "timestamp", kind: "DATETIME", constraint: "DEFAULT CURRENT_TIMESTAMP" },
    ]
}

/// The columns of the cache table, in order.
pub fn cache_columns() -> (columns: Vec<Column>)
    ensures
        columns@ == cache_schema(),
{
    let mut columns: Vec<Column> = Vec::new();
    columns.push(Column { name: "id", kind: "INTEGER", constraint: "PRIMARY KEY AUTOINCREMENT" });
    columns.push(Column { name: "encoded_text", kind: "TEXT", constraint: "NOT NULL" });
    columns.push(Column { name: "decoded_text", kind: "TEXT", constraint: "NOT NULL" });
    columns.push(Column { name: "path", kind: "JSON", constraint: "NOT NULL" });
    columns.push(Column { name: "successful", kind: "BOOLEAN", constraint: "NOT NULL" });
    columns.push(Column { name: "execution_time_ms", kind: "INTEGER", constraint: "NOT NULL" });
    columns.push(
        Column { name: "timestamp", kind: "DATETIME", constraint: "DEFAULT CURRENT_TIMESTAMP" },
    );
    assert(columns@ =~= cache_schema());
    columns
}

/// The columns of the failed_decodes table, in order.
pub fn failed_decodes_columns() -> (columns: Vec<Column>)
    ensures
        columns@ == failed_decodes_schema(),
{
    let mut columns: Vec<Column> = Vec::new();
    columns.push(Column { name: "id", kind: "INTEGER", constraint: "PRIMARY KEY AUTOINCREMENT" });
    columns.push(Column { name: "plaintext", kind: "TEXT", constraint: "NOT NULL" });
    columns.push(Column { name: "checker", kind: "TEXT", constraint: "NOT NULL" });
    columns.push(
        Column { name: "timestamp", kind: "DATETIME", constraint: "DEFAULT CURRENT_TIMESTAMP" },
    );
    assert(columns@ =~= failed_decodes_schema());
    columns
}

/// Writes the statement that creates `table` with `columns` unless it exists.
pub fn create_table(table: &str, columns: &Vec<Column>) -> (sql: String)
    ensures
        sql@ == create_table_sql(table@, columns@),
{
    let mut body = String::new();
    let mut i: usize = 0;
    while i < columns.len()
        invariant
            i <= columns.len(),
            body@ == columns_sql(columns@, i as int),
        decreases columns.len() - i,
    {
        if i > 0 {
            body.append(", ");
        }
        let column = &columns[i];
        body.append(column.name);
        body.append(" ");
        body.append(column.kind);
        if !column.constraint.is_empty() {
            body.append(" ");
            body.append(column.constraint);
        }
        proof {
            reveal_strlit("");
            assert(body@ =~= columns_sql(columns@, i as int + 1));
        }
        i += 1;
    }
    let mut sql = String::new();
    sql.append("CREATE TABLE IF NOT EXISTS ");
    sql.append(table);
    sql.append(" (");
    sql.append(body.as_str());
    sql.append(");");
    proof {
        assert(sql@ =~= create_table_sql(table@, columns@));
    }
    sql
}

/// Writes the statement that creates the index `index` on `column` of `table`
/// unless it exists.
pub fn create_index(index: &str, table: &str, column: &str) -> (sql: String)
    ensures
        sql@ == create_index_sql(index@, table@, column@),
{
    let mut sql = String::new();
    sql.append("CREATE INDEX IF NOT EXISTS ");
    sql.append(index);
    sql.append(" ON ");
    sql.append(table);
    sql.append("(");
    sql.append(column);
    sql.append(");");
    proof {
        assert(sql@ =~= create_index_sql(index@, table@, column@));
    }
    sql
}

/// The statements that set a database up, in the order in which they are
/// run: the cache table, its index on the encoded text, the failed_decodes
/// table, its index on the plaintext. Each can be run again without harm.
pub fn setup_statements() -> (statements: Vec<String>)
    ensures
        statements@.len() == 4,
        statements@[0]@ == create_table_sql(CACHE_TABLE@, cache_schema()),
        statements@[1]@ == create_index_sql(
            "idx_cache_encoded_text"@,
            CACHE_TABLE@,
            "encoded_text"@,
        ),
        statements@[2]@ == create_table_sql(FAILED_DECODES_TABLE@, failed_decodes_schema()),
        statements@[3]@ == create_index_sql(
            "idx_stats_plaintext"@,
            FAILED_DECODES_TABLE@,
            "plaintext"@,
        ),
{
    let mut statements: Vec<String> = Vec::new();
    let cache = cache_columns();
    let failed = failed_decodes_columns();
    statements.push(create_table(CACHE_TABLE, &cache));
    statements.push(create_index("idx_cache_encoded_text", CACHE_TABLE, "encoded_text"));
    statements.push(create_table(FAILED_DECODES_TABLE, &failed));
    statements.push(create_index("idx_stats_plaintext", FAILED_DECODES_TABLE, "plaintext"));
    statements
}

} // verus!
