//! The store's backing operations, each a thin trusted wrapper around the
//! outside call that performs it. Every database operation opens its own
//! connection, acts, and closes it again: no connection outlives a call.

use vstd::prelude::*;

verus! {

/// rusqlite's error type, carried opaquely and mapped by the callers to
/// [`crate::QueueError::Store`].
#[verifier::external_type_specification]
#[verifier::external_body]
pub struct ExRusqliteError(rusqlite::Error);

/// std's I/O error type, returned by the file-removal call.
#[verifier::external_type_specification]
#[verifier::external_body]
pub struct ExIoError(std::io::Error);

/// Relies on std::path::Path::exists: whether a file exists at `path` at the
/// moment of the call. An observation of the file system, so nothing can be
/// promised of the result.
#[verifier::external_body]
pub(crate) fn file_exists(path: &str) -> bool {
    std::path::Path::new(path).exists()
}

/// Relies on dirs::home_dir: the user's home directory, when the platform
/// reports one that is valid UTF-8. Depends on the environment, so nothing
/// can be promised of the result.
#[verifier::external_body]
pub(crate) fn home_dir() -> Option<String> {
    match dirs::home_dir() {
        Some(p) => match p.to_str() {
            Some(s) => Some(s.to_owned()),
            None => None,
        },
        None => None,
    }
}

/// Relies on rusqlite::Connection::open, which creates the database file
/// when none exists, and on Connection::execute running CREATE TABLE:
/// creates the backing file with the queue's one-table schema.
#[verifier::external_body]
pub(crate) fn db_create(path: &str) -> Result<(), rusqlite::Error> {
    let conn = rusqlite::Connection::open(path)?;
    conn.execute(
        "CREATE TABLE IF NOT EXISTS book_queue (
            id    INTEGER PRIMARY KEY,
            url  TEXT NOT NULL
        )",
        [],
    )?;
    Ok(())
}

/// Relies on rusqlite::Connection::execute running INSERT, and on
/// Connection::last_insert_rowid: appends a row holding `url` and returns
/// the rowid SQLite assigned to it. The rowid depends on what the file on
/// disk already holds, so nothing is promised of its value.
#[verifier::external_body]
pub(crate) fn db_insert(path: &str, url: &str) -> Result<i64, rusqlite::Error> {
    let conn = rusqlite::Connection::open(path)?;
    conn.execute("INSERT INTO book_queue (url) VALUES (?1)", [url])?;
    Ok(conn.last_insert_rowid())
}

/// Relies on rusqlite::Statement::query_map running SELECT ... ORDER BY id,
/// with rusqlite::Row::get reading each row out as an (id, url) pair.
/// ORDER BY returns the rows in ascending id order, so the ids come out
/// non-decreasing; which rows exist depends on the disk, and a file this
/// library did not create can hold duplicate ids, so no more than the
/// ordering is promised. The callers check strictness themselves.
#[verifier::external_body]
pub(crate) fn db_list(path: &str) -> (r: Result<Vec<(i64, String)>, rusqlite::Error>)
    ensures
        r matches Ok(rows) ==> forall|a: int, b: int|
            0 <= a < b < rows@.len() ==> (#[trigger] rows@[a]).0 <= (#[trigger] rows@[b]).0,
{
    let conn = rusqlite::Connection::open(path)?;
    let mut stmt = conn.prepare("SELECT id, url FROM book_queue ORDER BY id")?;
    let rows = stmt.query_map([], |row| Ok((row.get(0)?, row.get(1)?)))?;
    rows.collect()
}

/// Relies on rusqlite::Connection::execute running DELETE: removes the rows
/// whose id equals `id`. An absent id leaves nothing to remove, which SQLite
/// does not treat as an error.
#[verifier::external_body]
pub(crate) fn db_delete(path: &str, id: i64) -> Result<(), rusqlite::Error> {
    let conn = rusqlite::Connection::open(path)?;
    conn.execute("DELETE FROM book_queue WHERE id = ?1", [id])?;
    Ok(())
}

/// Relies on tokio::fs::remove_file, driven to completion on a one-off
/// current-thread runtime: removes the file at `path` from disk.
///
/// Caveat: tokio documents that `Runtime::block_on` panics when called from
/// within an asynchronous execution context, so the store operations built
/// on this call (`Storage::drop`, `Storage::flush`) must not run inside an
/// async task.
#[verifier::external_body]
pub(crate) fn remove_file(path: &str) -> Result<(), std::io::Error> {
    let rt = tokio::runtime::Builder::new_current_thread().enable_all().build()?;
    rt.block_on(tokio::fs::remove_file(path))
}

/// Relies on tokio::fs::create_dir_all, driven to completion on a one-off
/// current-thread runtime: creates the parent directory of `path`, and any
/// missing ancestors, before the backing file is made there. An existing
/// directory is not an error; a path without a parent directory leaves
/// nothing to create.
///
/// Caveat: tokio documents that `Runtime::block_on` panics when called from
/// within an asynchronous execution context, so `Storage::setup` and
/// `Storage::flush`, built on this call, must not run inside an async task.
#[verifier::external_body]
pub(crate) fn create_parent_dirs(path: &str) -> Result<(), std::io::Error> {
    let parent = match std::path::Path::new(path).parent() {
        Some(p) if !p.as_os_str().is_empty() => p.to_owned(),
        _ => return Ok(()),
    };
    let rt = tokio::runtime::Builder::new_current_thread().enable_all().build()?;
    rt.block_on(tokio::fs::create_dir_all(parent))
}

} // verus!
