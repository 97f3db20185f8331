//! The drain loop as an explicit state machine.
//!
//! Draining repeatedly loads all pending records, dispatches them one at a
//! time in listing order, deletes each only after its fetch action
//! succeeded, and rests between passes. The decisions live here, verified;
//! the unverified driver only performs the commands (load, run the fetch
//! action, delete, sleep) and feeds the outcome back as an event. Any
//! failure — a failed load, a failed fetch, a failed delete — aborts the
//! whole pass at once: the failing record is not deleted and stays pending
//! for the next run.

use vstd::prelude::*;
use crate::commands::Commands;
use crate::request::{request_ok, BookRequest};
use crate::resolve::{arg_or_env_spec, Env};
use crate::storage::BookRecord;
use crate::url::has_book_url_shape;
use crate::QueueError;

verus! {

/// Where a drain pass stands.
#[derive(Debug)]
pub enum DrainState {
    /// About to load all pending records.
    Load,
    /// The first pending record's fetch action is running.
    Fetching { pending: Vec<BookRecord> },
    /// The first pending record's fetch action succeeded and its row is
    /// being deleted; `pending` holds the records after it.
    Deleting { pending: Vec<BookRecord> },
    /// The pass is over; resting before the next one.
    Resting,
    /// The pass aborted; terminal.
    Failed { error: QueueError },
}

/// What the driver must do next.
#[derive(Debug)]
pub enum DrainCommand {
    /// Load every pending record from the store.
    LoadAll,
    /// Run the fetch action for this resolved request.
    Fetch { request: BookRequest },
    /// Delete this record from the store.
    Delete { record: BookRecord },
    /// Sleep for the fixed rest interval.
    Rest,
    /// Stop the loop and report the error.
    Stop { error: QueueError },
}

/// What the driver observed while performing the last command.
#[derive(Debug)]
pub enum DrainEvent {
    /// Loading finished with these records.
    Loaded { records: Vec<BookRecord> },
    /// Loading failed.
    LoadFailed { error: QueueError },
    /// The fetch action finished; `success` is its binary outcome.
    FetchFinished { success: bool },
    /// The delete finished.
    Deleted,
    /// The delete failed.
    DeleteFailed { error: QueueError },
    /// The rest interval passed.
    Rested,
}

impl DrainState {
    /// A well-formed state: a running fetch always has the record it is
    /// fetching at the front of `pending`.
    pub open spec fn wf(self) -> bool {
        match self {
            DrainState::Fetching { pending } => pending@.len() > 0,
            _ => true,
        }
    }

    /// Which events can answer which states.
    pub open spec fn accepts(self, event: DrainEvent) -> bool {
        match (self, event) {
            (DrainState::Load, DrainEvent::Loaded { .. }) => true,
            (DrainState::Load, DrainEvent::LoadFailed { .. }) => true,
            (DrainState::Fetching { .. }, DrainEvent::FetchFinished { .. }) => true,
            (DrainState::Deleting { .. }, DrainEvent::Deleted) => true,
            (DrainState::Deleting { .. }, DrainEvent::DeleteFailed { .. }) => true,
            (DrainState::Resting, DrainEvent::Rested) => true,
            _ => false,
        }
    }
}

/// What dispatching the front of `pending` settles on: an empty batch rests
/// until the next pass; a front record whose URL does not have the
/// library-view shape aborts with `InvalidUrl`; a missing credential aborts
/// with `MissingCredential`; otherwise the front record's resolved request
/// goes to the fetch action.
pub open spec fn dispatch_spec(
    pending: Vec<BookRecord>,
    cmd: Commands,
    env: Env,
    r: (DrainState, DrainCommand),
) -> bool {
    if pending@.len() == 0 {
        r == (DrainState::Resting, DrainCommand::Rest)
    } else if !has_book_url_shape(pending@[0].url@) {
        r == ((DrainState::Failed { error: QueueError::InvalidUrl }), (DrainCommand::Stop {
            error: QueueError::InvalidUrl,
        }))
    } else if arg_or_env_spec(cmd.auth_arg(), env.auth) is None {
        r == ((DrainState::Failed { error: QueueError::MissingCredential }), (DrainCommand::Stop {
            error: QueueError::MissingCredential,
        }))
    } else {
        &&& r.0 == (DrainState::Fetching { pending })
        &&& r.1 matches DrainCommand::Fetch { request } && request_ok(
            request,
            pending@[0].url@,
            cmd.auth_arg(),
            cmd.folder_arg(),
            env,
        )
    }
}

/// Resolves the front of `pending` and decides what to do with it.
fn dispatch_front(pending: Vec<BookRecord>, cmd: &Commands, env: &Env) -> (r: (
    DrainState,
    DrainCommand,
))
    requires
        cmd is Start,
    ensures
        dispatch_spec(pending, *cmd, *env, r),
        r.0.wf(),
{
    if pending.len() == 0 {
        return (DrainState::Resting, DrainCommand::Rest);
    }
    match BookRequest::new_from_record(&pending[0], cmd, env) {
        Ok(request) => (DrainState::Fetching { pending }, DrainCommand::Fetch { request }),
        Err(e) => (DrainState::Failed { error: e }, DrainCommand::Stop { error: e }),
    }
}

/// The start of the loop: about to load, and the driver must load.
pub fn drain_init() -> (r: (DrainState, DrainCommand))
    ensures
        r == (DrainState::Load, DrainCommand::LoadAll),
        r.0.wf(),
{
    (DrainState::Load, DrainCommand::LoadAll)
}

/// One transition of the drain loop: the state and the event the driver
/// observed go in, the next state and the next command come out. A
/// successful fetch, and only a successful fetch, leads to the front
/// record's deletion; a failed fetch aborts the pass with
/// `FetchActionFailed` and leaves the record pending.
pub fn drain_step(state: DrainState, event: DrainEvent, cmd: &Commands, env: &Env) -> (r: (
    DrainState,
    DrainCommand,
))
    requires
        cmd is Start,
        state.wf(),
        state.accepts(event),
    ensures
        r.0.wf(),
        event matches DrainEvent::Loaded { records } ==> dispatch_spec(records, *cmd, *env, r),
        event matches DrainEvent::LoadFailed { error } ==> r == ((DrainState::Failed { error }), (
        DrainCommand::Stop { error })),
        state matches DrainState::Fetching { pending } ==> (event
            matches DrainEvent::FetchFinished { success } ==> (if success {
            r.0 matches DrainState::Deleting { pending: rest }
                && r.1 matches DrainCommand::Delete { record } && rest@ == pending@.drop_first()
                && record == pending@[0]
        } else {
            r == ((DrainState::Failed { error: QueueError::FetchActionFailed }), (
            DrainCommand::Stop { error: QueueError::FetchActionFailed }))
        })),
        state matches DrainState::Deleting { pending } ==> (event is Deleted ==> dispatch_spec(
            pending,
            *cmd,
            *env,
            r,
        )),
        event matches DrainEvent::DeleteFailed { error } ==> r == ((DrainState::Failed { error }),
        (DrainCommand::Stop { error })),
        state is Resting ==> r == (DrainState::Load, DrainCommand::LoadAll),
{
    match (state, event) {
        (DrainState::Load, DrainEvent::Loaded { records }) => dispatch_front(records, cmd, env),
        (DrainState::Load, DrainEvent::LoadFailed { error }) => (
            DrainState::Failed { error },
            DrainCommand::Stop { error },
        ),
        (DrainState::Fetching { mut pending }, DrainEvent::FetchFinished { success }) => {
            if success {
                let record = pending.remove(0);
                (DrainState::Deleting { pending }, DrainCommand::Delete { record })
            } else {
                (
                    DrainState::Failed { error: QueueError::FetchActionFailed },
                    DrainCommand::Stop { error: QueueError::FetchActionFailed },
                )
            }
        },
        (DrainState::Deleting { pending }, DrainEvent::Deleted) => dispatch_front(pending, cmd, env),
        (DrainState::Deleting { .. }, DrainEvent::DeleteFailed { error }) => (
            DrainState::Failed { error },
            DrainCommand::Stop { error },
        ),
        (DrainState::Resting, DrainEvent::Rested) => (DrainState::Load, DrainCommand::LoadAll),
        _ => {
            proof {
                assert(false);
            }
            (DrainState::Load, DrainCommand::LoadAll)
        },
    }
}

} // verus!
