//! The command surface: the user intents that the queue understands, and the
//! per-command resolution of credential and destination folder.
//!
//! The unverified front end parses arguments and environment values and hands
//! them over as plain data; everything decided here is verified.

use vstd::prelude::*;
use crate::resolve::{arg_or_env_spec, clone_opt, get_arg_or_env, Env};
use crate::storage::{assert_readiness, assert_unreadiness, BookRecord, Storage};
use crate::url::{has_book_url_shape, parse_url};
use crate::QueueError;

verus! {

/// The parsed command line: one command per invocation.
pub struct Cli {
    pub command: Commands,
}

/// A user intent.
#[derive(Debug, Clone)]
pub enum Commands {
    /// Fetch one book immediately, without touching the queue.
    Download { url: String, auth: Option<String>, folder: Option<String> },
    /// Put a book on the queue.
    Queue { url: String },
    /// Hand a book to an external task queue. The core only resolves the
    /// request (see [`crate::BookRequest::try_from_command`]); the hand-off
    /// itself belongs to an external daemon client.
    Pueue { url: String, auth: Option<String>, folder: Option<String> },
    /// Drain the queue: dispatch pending books until stopped.
    Start { auth: Option<String>, folder: Option<String> },
    /// Set up the backing store.
    Init,
    /// Show the queue.
    List,
}

impl Commands {
    /// The explicit credential argument the command carries, if any.
    pub open spec fn auth_arg(self) -> Option<String> {
        match self {
            Commands::Download { auth, .. } => auth,
            Commands::Start { auth, .. } => auth,
            Commands::Pueue { auth, .. } => auth,
            _ => None,
        }
    }

    /// The explicit folder argument the command carries, if any.
    pub open spec fn folder_arg(self) -> Option<String> {
        match self {
            Commands::Download { folder, .. } => folder,
            Commands::Start { folder, .. } => folder,
            Commands::Pueue { folder, .. } => folder,
            _ => None,
        }
    }

    /// The URL argument the command carries, if any.
    pub open spec fn url_arg(self) -> Option<String> {
        match self {
            Commands::Download { url, .. } => Some(url),
            Commands::Queue { url } => Some(url),
            Commands::Pueue { url, .. } => Some(url),
            _ => None,
        }
    }

    /// The credential for this command: the explicit argument first, else
    /// the ambient value, else an error — a credential has no default.
    pub fn auth(&self, env_auth: Option<String>) -> (r: Result<String, QueueError>)
        requires
            self is Download || self is Start,
        ensures
            arg_or_env_spec(self.auth_arg(), env_auth) matches Some(a) ==> r == Ok::<
                String,
                QueueError,
            >(a),
            arg_or_env_spec(self.auth_arg(), env_auth) is None ==> r == Err::<String, QueueError>(
                QueueError::MissingCredential,
            ),
    {
        let arg = match self {
            Commands::Download { auth, .. } => clone_opt(auth),
            Commands::Start { auth, .. } => clone_opt(auth),
            _ => None,
        };
        match get_arg_or_env(arg, env_auth) {
            Some(a) => Ok(a),
            None => Err(QueueError::MissingCredential),
        }
    }

    /// The destination folder for this command: the explicit argument first,
    /// else the ambient value, else the home placeholder — never an error.
    pub fn folder(&self, env_folder: Option<String>) -> (r: Result<String, QueueError>)
        requires
            self is Download || self is Start,
        ensures
            arg_or_env_spec(self.folder_arg(), env_folder) matches Some(f) ==> r == Ok::<
                String,
                QueueError,
            >(f),
            arg_or_env_spec(self.folder_arg(), env_folder) is None ==> (r matches Ok(f) && f@
                == "~"@),
    {
        let arg = match self {
            Commands::Download { folder, .. } => clone_opt(folder),
            Commands::Start { folder, .. } => clone_opt(folder),
            _ => None,
        };
        match get_arg_or_env(arg, env_folder) {
            Some(f) => Ok(f),
            None => Ok("~".to_owned()),
        }
    }
}

/// Puts a book on the queue: checks readiness, validates the URL, and
/// persists a fresh record. A record that comes back `Ok` carries the given
/// URL and an assigned identity, and the URL had the library-view shape;
/// `InvalidUrl` comes only from a URL without that shape.
pub fn enqueue(storage: &Storage, url: &str) -> (r: Result<BookRecord, QueueError>)
    ensures
        r matches Ok(rec) ==> (rec.id matches Some(i) && i >= 1 && rec.url@ == url@
            && has_book_url_shape(url@)),
        r matches Err(e) ==> (e == QueueError::NotInitialized || e == QueueError::InvalidUrl || e
            == QueueError::Store),
        r == Err::<BookRecord, QueueError>(QueueError::InvalidUrl) ==> !has_book_url_shape(url@),
        !has_book_url_shape(url@) ==> (r == Err::<BookRecord, QueueError>(QueueError::InvalidUrl)
            || r == Err::<BookRecord, QueueError>(QueueError::NotInitialized)),
{
    match assert_readiness(storage) {
        Err(e) => {
            return Err(e);
        },
        Ok(()) => {},
    }
    match parse_url(url) {
        None => {
            return Err(QueueError::InvalidUrl);
        },
        Some(_) => {},
    }
    let mut record = BookRecord::new(url);
    match record.insert(storage) {
        Ok(()) => Ok(record),
        Err(e) => Err(e),
    }
}

/// Sets up the backing store: checks that it is not already initialized,
/// then creates the backing file and its schema.
pub fn initialize(storage: &Storage) -> (r: Result<(), QueueError>)
    ensures
        r matches Err(e) ==> e == QueueError::AlreadyInitialized || e == QueueError::Store,
{
    match assert_unreadiness(storage) {
        Err(e) => {
            return Err(e);
        },
        Ok(()) => {},
    }
    storage.setup()
}

} // verus!
