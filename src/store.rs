//! The record of items already seen: one SQLite table, opened afresh for
//! each operation, whose unique column is the authority on duplicates.

use vstd::prelude::*;
use vstd::string::*;

verus! {

/// rusqlite's open database handle, carried through unread.
#[verifier::external_type_specification]
#[verifier::external_body]
pub struct ExConnection(rusqlite::Connection);

/// rusqlite's error, carried through unread and mapped to `StoreError`.
#[verifier::external_type_specification]
#[verifier::external_body]
pub struct ExSqlError(rusqlite::Error);

/// Where the store lives when no location is configured.
pub const DEFAULT_DB_PATH: &'static str = "./sub_watcher.db";

/// Makes the table of seen links where it is missing.
pub const CREATE_TABLE_SQL: &'static str = "CREATE TABLE IF NOT EXISTS seen_posts (
            id INTEGER PRIMARY KEY,
            link TEXT NOT NULL UNIQUE
        )";

/// Records one link; fails on the unique constraint where it is there already.
pub const INSERT_LINK_SQL: &'static str = "INSERT INTO seen_posts (link) VALUES (?1)";

/// Tells whether a link is recorded.
pub const FIND_LINK_SQL: &'static str = "SELECT EXISTS(SELECT 1 FROM seen_posts WHERE link = ?1)";

/// Why an operation on the store failed.
#[derive(Debug, Clone, PartialEq, Eq)]
pub enum StoreError {
    /// The identifier is recorded already: the unique constraint refused it.
    DuplicateKey,
    /// The store could not be opened, read or written; the text says why.
    Backend(String),
}

/// Relies on rusqlite::Connection::open: opens the database file at `path`,
/// creating it where it is missing.
#[verifier::external_body]
fn open_connection(path: &str) -> (r: Result<rusqlite::Connection, rusqlite::Error>) {
    rusqlite::Connection::open(path)
}

/// Relies on rusqlite::Connection::execute: runs one statement with `args`
/// bound to `?1`, `?2`, ... in order.
#[verifier::external_body]
fn execute_sql(conn: &rusqlite::Connection, sql: &str, args: &[String]) -> (r: Result<usize, rusqlite::Error>) {
    conn.execute(sql, rusqlite::params_from_iter(args.iter()))
}

/// Relies on rusqlite::Connection::query_row: runs a query with `args` bound
/// in order and reads the first column of its first row as a flag.
#[verifier::external_body]
fn query_flag(conn: &rusqlite::Connection, sql: &str, args: &[String]) -> (r: Result<bool, rusqlite::Error>) {
    conn.query_row(sql, rusqlite::params_from_iter(args.iter()), |row| row.get(0))
}

/// Relies on rusqlite::Error::sqlite_error_code: tells a refused constraint
/// (here, the unique link) from other failures.
#[verifier::external_body]
fn is_constraint_violation(e: &rusqlite::Error) -> (r: bool) {
    e.sqlite_error_code() == Some(rusqlite::ErrorCode::ConstraintViolation)
}

/// Relies on the `Display` impl of rusqlite::Error for a readable message.
#[verifier::external_body]
fn error_text(e: &rusqlite::Error) -> (r: String) {
    e.to_string()
}

/// The error a failed write stands for: a refused constraint (the unique
/// link) is a duplicate, anything else a failure of the store, with its text.
pub open spec fn failure_of(constraint: bool, text: String) -> StoreError {
    if constraint {
        StoreError::DuplicateKey
    } else {
        StoreError::Backend(text)
    }
}

/// What recording a link comes to, from what the store reported: the text of
/// a failed open, else how the write failed (a refused constraint, and the
/// text), if it did.
pub open spec fn write_result(open_failure: Option<String>, write_failure: Option<(bool, String)>) -> Result<(), StoreError> {
    match open_failure {
        Some(t) => Err(StoreError::Backend(t)),
        None => match write_failure {
            Some((c, t)) => Err(failure_of(c, t)),
            None => Ok(()),
        },
    }
}

/// What opening the store and making its table come to, from what the store
/// reported: the text of a failed open, else that of a failed statement.
pub open spec fn setup_result(path: String, open_failure: Option<String>, exec_failure: Option<String>) -> Result<String, StoreError> {
    match open_failure {
        Some(t) => Err(StoreError::Backend(t)),
        None => match exec_failure {
            Some(t) => Err(StoreError::Backend(t)),
            None => Ok(path),
        },
    }
}

/// The library's error for a failed write.
pub fn classify_failure(constraint: bool, text: String) -> (r: StoreError)
    ensures
        r == failure_of(constraint, text),
        constraint ==> r == StoreError::DuplicateKey,
        !constraint ==> r == StoreError::Backend(text),
{
    if constraint {
        StoreError::DuplicateKey
    } else {
        StoreError::Backend(text)
    }
}

/// Settles the recording of a link from what the store reported.
pub fn settle_write(open_failure: Option<String>, write_failure: Option<(bool, String)>) -> (r: Result<(), StoreError>)
    ensures
        r == write_result(open_failure, write_failure),
{
    match open_failure {
        Some(t) => Err(StoreError::Backend(t)),
        None => match write_failure {
            Some((c, t)) => Err(classify_failure(c, t)),
            None => Ok(()),
        },
    }
}

/// Settles the opening of the store from what it reported.
pub fn settle_setup(path: String, open_failure: Option<String>, exec_failure: Option<String>) -> (r: Result<String, StoreError>)
    ensures
        r == setup_result(path, open_failure, exec_failure),
{
    match open_failure {
        Some(t) => Err(StoreError::Backend(t)),
        None => match exec_failure {
            Some(t) => Err(StoreError::Backend(t)),
            None => Ok(path),
        },
    }
}

/// The parameters bound to a statement about one link: the link alone.
fn link_params(permalink: &str) -> (r: Vec<String>)
    ensures
        r@.len() == 1,
        r@[0]@ == permalink@,
{
    let mut args: Vec<String> = Vec::new();
    args.push(String::from_str(permalink));
    args
}

/// The chars of the store's location: the configured one, else the default.
pub open spec fn db_path_or_default_view(configured: Option<&str>) -> Seq<char> {
    match configured {
        Some(p) => p@,
        None => DEFAULT_DB_PATH@,
    }
}

/// The store's location: the configured one, else the default.
pub fn db_path_or_default(configured: Option<&str>) -> (r: String)
    ensures
        match configured {
            Some(p) => r@ == p@,
            None => r@ == DEFAULT_DB_PATH@,
        },
{
    match configured {
        Some(p) => String::from_str(p),
        None => String::from_str(DEFAULT_DB_PATH),
    }
}

/// Opens the store at its location, makes its table where it is missing,
/// and hands back the location for later operations. A store that cannot be
/// opened, or whose table cannot be made, is an error.
pub fn create_db(configured: Option<&str>) -> (r: Result<String, StoreError>)
    ensures
        match r {
            Ok(p) => match configured {
                Some(c) => p@ == c@,
                None => p@ == DEFAULT_DB_PATH@,
            },
            Err(e) => e is Backend,
        },
        exists|path: String, o: Option<String>, x: Option<String>|
            #[trigger] setup_result(path, o, x) == r && path@ == db_path_or_default_view(configured),
{
    let db_path = db_path_or_default(configured);
    let conn = match open_connection(db_path.as_str()) {
        Ok(c) => c,
        Err(e) => return settle_setup(db_path, Some(error_text(&e)), None),
    };
    let no_args: Vec<String> = Vec::new();
    match execute_sql(&conn, CREATE_TABLE_SQL, no_args.as_slice()) {
        Ok(_) => settle_setup(db_path, None, None),
        Err(e) => settle_setup(db_path, None, Some(error_text(&e))),
    }
}

/// Records `permalink` as seen. A link that is there already gives
/// `DuplicateKey`, which the store's unique column decides; a store that
/// cannot be opened or written gives `Backend`. The result is always
/// `write_result` of what the store reported.
pub fn insert_by_permalink(db_path: &str, permalink: &str) -> (r: Result<(), StoreError>)
    ensures
        exists|o: Option<String>, w: Option<(bool, String)>| #[trigger] write_result(o, w) == r,
{
    let conn = match open_connection(db_path) {
        Ok(c) => c,
        Err(e) => return settle_write(Some(error_text(&e)), None),
    };
    let args = link_params(permalink);
    match execute_sql(&conn, INSERT_LINK_SQL, args.as_slice()) {
        Ok(_) => settle_write(None, None),
        Err(e) => settle_write(None, Some((is_constraint_violation(&e), error_text(&e)))),
    }
}

/// Whether `permalink` is recorded as seen.
pub fn get_by_permalink(db_path: &str, permalink: &str) -> (r: Result<bool, StoreError>)
    ensures
        r matches Err(e) ==> e is Backend,
{
    let conn = match open_connection(db_path) {
        Ok(c) => c,
        Err(e) => return Err(StoreError::Backend(error_text(&e))),
    };
    let args = link_params(permalink);
    match query_flag(&conn, FIND_LINK_SQL, args.as_slice()) {
        Ok(b) => Ok(b),
        Err(e) => Err(StoreError::Backend(error_text(&e))),
    }
}

} // verus!
