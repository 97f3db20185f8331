//! A small queue for remote books: a durable store of queued URLs, a
//! readiness gate over its backing file, a resolver that turns a queued URL
//! and optional overrides into a fully-resolved fetch request, and a drain
//! state machine that dispatches pending work one item at a time.

pub mod backend;
pub mod commands;
pub mod drain;
pub mod request;
pub mod resolve;
pub mod storage;
pub mod url;

pub use commands::{enqueue, initialize, Cli, Commands};
pub use drain::{drain_init, drain_step, DrainCommand, DrainEvent, DrainState};
pub use request::BookRequest;
pub use resolve::{get_arg_or_env, Env};
pub use storage::{
    assert_readiness, assert_unreadiness, identity_from_rowid, records_from_rows, BookRecord,
    Storage,
};
pub use url::parse_url;

use vstd::prelude::*;

verus! {

/// The closed error taxonomy of the queue.
#[derive(Clone, Copy, Debug, PartialEq, Eq, Structural)]
pub enum QueueError {
    /// A queue operation was attempted before the store was set up.
    NotInitialized,
    /// Setup was attempted on a store whose backing file already exists.
    AlreadyInitialized,
    /// The URL does not have the library-view shape.
    InvalidUrl,
    /// No credential was given and none was found in the environment values.
    MissingCredential,
    /// The backing store failed (I/O or schema).
    Store,
    /// The external fetch action reported failure; the drain pass aborts.
    FetchActionFailed,
}

} // verus!
