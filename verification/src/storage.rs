//! The durable store of queued work items and the readiness gate over it.
//!
//! A [`Storage`] wraps exactly one backing-file path: an explicit one, or
//! the fixed default under the user's home directory, resolved once at
//! construction. Readiness means the backing file exists; every
//! queue-consuming operation re-checks it. Each store operation opens the
//! database, acts, and closes it again.

use vstd::prelude::*;
use crate::backend::{
    create_parent_dirs, db_create, db_delete, db_insert, db_list, file_exists, home_dir,
    remove_file,
};
use crate::resolve::clone_opt;
use crate::QueueError;

verus! {

/// The path of the default backing file, relative to the home directory.
pub open spec fn is_default_db_path(p: Seq<char>) -> bool {
    exists|h: Seq<char>| p == #[trigger] (h + "/.oreally/database.db"@)
}

/// A handle on the backing file of the queue.
pub struct Storage {
    /// The backing-file path, resolved once at construction: the explicit
    /// path when one was given, else the default location, else nothing
    /// (no explicit path and no home directory).
    pub db_path: Option<String>,
}

/// One queued work item: a source URL, and the identity the store assigned
/// to it on first persistence (`None` until then).
#[derive(Debug)]
pub struct BookRecord {
    /// Assigned by the store on first insert; `None` means never persisted.
    pub id: Option<i32>,
    /// The canonical remote locator; immutable once set.
    pub url: String,
}

impl Default for Storage {
    /// A handle on the default backing-file location.
    fn default() -> (r: Self)
        ensures
            r.db_path matches Some(p) ==> is_default_db_path(p@),
    {
        Storage::new(None)
    }
}

impl Storage {
    /// A handle on the given backing file, or on the default location.
    /// Resolution happens here, once: the handle keeps the resolved path.
    pub fn new(path: Option<String>) -> (r: Self)
        ensures
            path matches Some(p) ==> r.db_path == Some(p),
            path is None ==> (r.db_path matches Some(p) ==> is_default_db_path(p@)),
    {
        match path {
            Some(p) => Storage { db_path: Some(p) },
            None => Storage { db_path: Self::default_db_path() },
        }
    }

    /// The fixed default backing-file location under the home directory,
    /// when the platform reports one.
    pub fn default_db_path() -> (r: Option<String>)
        ensures
            r matches Some(p) ==> is_default_db_path(p@),
    {
        match home_dir() {
            Some(h) => {
                let p = h.concat("/.oreally/database.db");
                proof {
                    assert(is_default_db_path(p@));
                }
                Some(p)
            },
            None => None,
        }
    }

    /// The backing-file path this handle resolved at construction.
    pub fn db_path(&self) -> (r: Option<String>)
        ensures
            r == self.db_path,
    {
        clone_opt(&self.db_path)
    }

    /// Whether the store is ready: the backing file exists at the resolved
    /// path. An observation of the file system, re-made on every call, so no
    /// stronger contract is possible.
    pub fn is_ready(&self) -> bool {
        match self.db_path() {
            Some(p) => file_exists(p.as_str()),
            None => false,
        }
    }

    /// Creates the backing file and its schema, making the file's parent
    /// directories first when they are missing. Fails with
    /// `AlreadyInitialized` when the file already exists at the moment of
    /// the check — setup is not idempotent — and with `Store` when the path
    /// cannot be resolved, the directories cannot be made, or the database
    /// cannot be created. Must not run inside an async task (see the
    /// directory and removal wrappers).
    pub fn setup(&self) -> (r: Result<(), QueueError>)
        ensures
            r matches Err(e) ==> e == QueueError::AlreadyInitialized || e == QueueError::Store,
    {
        match self.db_path() {
            None => Err(QueueError::Store),
            Some(p) => {
                if file_exists(p.as_str()) {
                    Err(QueueError::AlreadyInitialized)
                } else {
                    match create_parent_dirs(p.as_str()) {
                        Ok(()) => {},
                        Err(_) => {
                            return Err(QueueError::Store);
                        },
                    }
                    match db_create(p.as_str()) {
                        Ok(()) => Ok(()),
                        Err(_) => Err(QueueError::Store),
                    }
                }
            },
        }
    }

    /// Removes the backing file entirely; used for teardown. A missing file
    /// is not an error, so `setup` right after `drop` succeeds.
    pub fn drop(&self) -> (r: Result<(), QueueError>)
        ensures
            r matches Err(e) ==> e == QueueError::Store,
    {
        match self.db_path() {
            None => Err(QueueError::Store),
            Some(p) => {
                if file_exists(p.as_str()) {
                    match remove_file(p.as_str()) {
                        Ok(()) => Ok(()),
                        Err(_) => Err(QueueError::Store),
                    }
                } else {
                    Ok(())
                }
            },
        }
    }

    /// Removes the backing file and sets it up afresh.
    pub fn flush(&self) -> (r: Result<(), QueueError>)
        ensures
            r matches Err(e) ==> e == QueueError::AlreadyInitialized || e == QueueError::Store,
    {
        match self.drop() {
            Ok(()) => self.setup(),
            Err(e) => Err(e),
        }
    }
}

/// The resolved path of a ready store: the backing file existed at the
/// moment of the check. Nothing when the path cannot be resolved or the
/// file is missing.
fn ready_path(storage: &Storage) -> Option<String> {
    match storage.db_path() {
        Some(p) => {
            if file_exists(p.as_str()) {
                Some(p)
            } else {
                None
            }
        },
        None => None,
    }
}

/// The identity the store derives from a freshly assigned rowid: the rowid
/// itself, exactly when it lies in the store's identity range (1 through
/// `i32::MAX`); anything outside that range is store corruption.
pub fn identity_from_rowid(rowid: i64) -> (r: Result<i32, QueueError>)
    ensures
        1 <= rowid <= i32::MAX as i64 ==> r == Ok::<i32, QueueError>(rowid as i32),
        !(1 <= rowid <= i32::MAX as i64) ==> r == Err::<i32, QueueError>(QueueError::Store),
{
    if 1 <= rowid && rowid <= i32::MAX as i64 {
        Ok(rowid as i32)
    } else {
        Err(QueueError::Store)
    }
}

/// Listed rows the store accepts: every id in the identity range and the
/// ids strictly increasing — what a backing file holds exactly when this
/// library made every row in it.
pub open spec fn rows_well_formed(rows: Seq<(i64, String)>) -> bool {
    &&& forall|k: int| 0 <= k < rows.len() ==> 1 <= (#[trigger] rows[k]).0 <= i32::MAX as i64
    &&& forall|a: int, b: int|
        0 <= a < b < rows.len() ==> (#[trigger] rows[a]).0 < (#[trigger] rows[b]).0
}

/// The records that a list of (id, url) rows converts to: one record per
/// row, with the row's id as its identity and the row's url unchanged.
/// Succeeds exactly when the rows are well formed; rows with an id out of
/// the identity range, duplicated, or out of order are store corruption.
pub fn records_from_rows(rows: Vec<(i64, String)>) -> (r: Result<Vec<BookRecord>, QueueError>)
    ensures
        r is Ok <==> rows_well_formed(rows@),
        r matches Ok(v) ==> v@.len() == rows@.len(),
        r matches Ok(v) ==> forall|k: int|
            0 <= k < v@.len() ==> ((#[trigger] v@[k]).id == Some(rows@[k].0 as i32) && v@[k].url
                == rows@[k].1),
        r matches Err(e) ==> e == QueueError::Store,
{
    let mut out: Vec<BookRecord> = Vec::new();
    let mut k: usize = 0;
    while k < rows.len()
        invariant
            k <= rows@.len(),
            out@.len() == k,
            forall|m: int| 0 <= m < k ==> 1 <= (#[trigger] rows@[m]).0 <= i32::MAX as i64,
            forall|a: int, b: int|
                0 <= a < b < k ==> (#[trigger] rows@[a]).0 < (#[trigger] rows@[b]).0,
            forall|m: int|
                0 <= m < k ==> ((#[trigger] out@[m]).id == Some(rows@[m].0 as i32) && out@[m].url
                    == rows@[m].1),
        decreases rows@.len() - k,
    {
        let id = rows[k].0;
        let url = rows[k].1.clone();
        if id < 1 || id > i32::MAX as i64 {
            return Err(QueueError::Store);
        }
        if k > 0 && rows[k - 1].0 >= id {
            return Err(QueueError::Store);
        }
        out.push(BookRecord { id: Some(id as i32), url });
        k += 1;
    }
    Ok(out)
}

impl BookRecord {
    /// A fresh, never-persisted record for `url`.
    pub fn new(url: &str) -> (r: Self)
        ensures
            r.id is None,
            r.url@ == url@,
    {
        BookRecord { id: None, url: url.to_owned() }
    }

    /// Persists the record and assigns it the store's identity. Inserting an
    /// already-identified record is a no-op that leaves it unchanged, so
    /// insert is idempotent. A fresh record that comes back `Ok` carries the
    /// assigned identity and its URL unchanged; on any error the record is
    /// unchanged.
    pub fn insert(&mut self, storage: &Storage) -> (r: Result<(), QueueError>)
        ensures
            old(self).id is Some ==> r == Ok::<(), QueueError>(()) && *final(self) == *old(self),
            r matches Err(e) ==> *final(self) == *old(self) && (e == QueueError::NotInitialized
                || e == QueueError::Store),
            (old(self).id is None && r matches Ok(_)) ==> (final(self).id matches Some(i) && i >= 1
                && final(self).url == old(self).url),
    {
        if self.id.is_some() {
            return Ok(());
        }
        let p = match ready_path(storage) {
            Some(p) => p,
            None => {
                return Err(QueueError::NotInitialized);
            },
        };
        match db_insert(p.as_str(), self.url.as_str()) {
            Ok(rowid) => match identity_from_rowid(rowid) {
                Ok(id) => {
                    self.id = Some(id);
                    Ok(())
                },
                Err(e) => Err(e),
            },
            Err(_) => Err(QueueError::Store),
        }
    }

    /// Every persisted record, in ascending identity order. Each returned
    /// record carries an assigned identity, and the identities are strictly
    /// increasing.
    pub fn all(storage: &Storage) -> (r: Result<Vec<BookRecord>, QueueError>)
        ensures
            r matches Ok(v) ==> forall|k: int|
                0 <= k < v@.len() ==> ((#[trigger] v@[k].id) matches Some(i) && i >= 1),
            r matches Ok(v) ==> forall|a: int, b: int|
                0 <= a < b < v@.len() ==> ((#[trigger] v@[a].id) matches Some(x)
                    && (#[trigger] v@[b].id) matches Some(y) && x < y),
            r matches Err(e) ==> e == QueueError::NotInitialized || e == QueueError::Store,
    {
        let p = match ready_path(storage) {
            Some(p) => p,
            None => {
                return Err(QueueError::NotInitialized);
            },
        };
        let rows = match db_list(p.as_str()) {
            Ok(rows) => rows,
            Err(_) => {
                return Err(QueueError::Store);
            },
        };
        records_from_rows(rows)
    }

    /// Removes the persisted row with this record's identity. A record with
    /// no identity was never persisted, so there is nothing to delete and
    /// the call succeeds; an identity that is absent from the store leaves
    /// nothing to remove, which is not an error either — delete is
    /// idempotent.
    pub fn delete(&self, storage: &Storage) -> (r: Result<(), QueueError>)
        ensures
            self.id is None ==> r == Ok::<(), QueueError>(()),
            r matches Err(e) ==> e == QueueError::NotInitialized || e == QueueError::Store,
    {
        let id = match self.id {
            None => {
                return Ok(());
            },
            Some(id) => id,
        };
        let p = match ready_path(storage) {
            Some(p) => p,
            None => {
                return Err(QueueError::NotInitialized);
            },
        };
        match db_delete(p.as_str(), id as i64) {
            Ok(()) => Ok(()),
            Err(_) => Err(QueueError::Store),
        }
    }
}

/// The readiness gate for queue-consuming operations, over one observation
/// of readiness: exactly when the store is not ready, the operation is
/// refused with `NotInitialized`.
pub fn require_ready(ready: bool) -> (r: Result<(), QueueError>)
    ensures
        ready ==> r == Ok::<(), QueueError>(()),
        !ready ==> r == Err::<(), QueueError>(QueueError::NotInitialized),
{
    if ready {
        Ok(())
    } else {
        Err(QueueError::NotInitialized)
    }
}

/// The readiness gate for the initialize operation, over one observation of
/// readiness: exactly when the store is already ready, initialization is
/// refused with `AlreadyInitialized`.
pub fn require_unready(ready: bool) -> (r: Result<(), QueueError>)
    ensures
        ready ==> r == Err::<(), QueueError>(QueueError::AlreadyInitialized),
        !ready ==> r == Ok::<(), QueueError>(()),
{
    if ready {
        Err(QueueError::AlreadyInitialized)
    } else {
        Ok(())
    }
}

/// Fails fast with `NotInitialized` when the store's backing file is
/// missing at the moment of the call.
pub fn assert_readiness(storage: &Storage) -> (r: Result<(), QueueError>)
    ensures
        r matches Err(e) ==> e == QueueError::NotInitialized,
{
    require_ready(storage.is_ready())
}

/// Fails fast with `AlreadyInitialized` when the store's backing file
/// already exists at the moment of the call.
pub fn assert_unreadiness(storage: &Storage) -> (r: Result<(), QueueError>)
    ensures
        r matches Err(e) ==> e == QueueError::AlreadyInitialized,
{
    require_unready(storage.is_ready())
}

} // verus!
