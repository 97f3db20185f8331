//! The fully-resolved fetch request, built from a source URL and the
//! command's credential and folder inputs.
//!
//! A [`BookRequest`] is a value: immutable once constructed, with no
//! reference back to the work item it came from. Building one applies the
//! URL extraction and the resolution precedence exactly.

use vstd::prelude::*;
use vstd::string::*;
use crate::commands::Commands;
use crate::resolve::{arg_or_env_spec, clone_opt, get_arg_or_env, Env};
use crate::storage::BookRecord;
use crate::url::{extracts_to, has_book_url_shape, parse_url};
use crate::QueueError;

verus! {

/// A fully-resolved fetch request, ready to hand to the external fetch
/// action.
#[derive(Debug)]
pub struct BookRequest {
    /// The numeric identifier extracted from the source URL.
    pub book_id: String,
    /// The slug extracted alongside the identifier.
    pub title: String,
    /// The resolved credential; mandatory, never defaulted.
    pub auth: String,
    /// The resolved destination folder; defaults to the home placeholder.
    pub folder: String,
}

/// `req` is the request that `url` resolves to under the given explicit
/// arguments and ambient values: title and id are what the URL extracts to,
/// the credential follows the explicit-over-ambient precedence, and the
/// folder does too, with the home placeholder as its final fallback.
pub open spec fn request_ok(
    req: BookRequest,
    url: Seq<char>,
    auth_arg: Option<String>,
    folder_arg: Option<String>,
    env: Env,
) -> bool {
    &&& extracts_to(url, req.title@, req.book_id@)
    &&& arg_or_env_spec(auth_arg, env.auth) == Some(req.auth)
    &&& match arg_or_env_spec(folder_arg, env.folder) {
        Some(f) => req.folder == f,
        None => req.folder@ == "~"@,
    }
}

impl BookRequest {
    /// The request for a queued record, resolved with the drain command's
    /// inputs. Fails with `InvalidUrl` exactly when the record's URL does
    /// not have the library-view shape, and with `MissingCredential` exactly
    /// when the URL is fine but neither an explicit credential nor an
    /// ambient one is at hand.
    pub fn new_from_record(record: &BookRecord, cmd: &Commands, env: &Env) -> (r: Result<
        BookRequest,
        QueueError,
    >)
        requires
            cmd is Download || cmd is Start,
        ensures
            r matches Ok(req) ==> request_ok(req, record.url@, cmd.auth_arg(), cmd.folder_arg(), *env),
            !has_book_url_shape(record.url@) ==> r == Err::<BookRequest, QueueError>(
                QueueError::InvalidUrl,
            ),
            (has_book_url_shape(record.url@) && arg_or_env_spec(cmd.auth_arg(), env.auth) is None)
                ==> r == Err::<BookRequest, QueueError>(QueueError::MissingCredential),
            (has_book_url_shape(record.url@) && arg_or_env_spec(cmd.auth_arg(), env.auth) is Some)
                ==> r is Ok,
    {
        let parsed = match parse_url(record.url.as_str()) {
            Some(p) => p,
            None => {
                return Err(QueueError::InvalidUrl);
            },
        };
        let auth = match cmd.auth(clone_opt(&env.auth)) {
            Ok(a) => a,
            Err(e) => {
                return Err(e);
            },
        };
        let folder = match cmd.folder(clone_opt(&env.folder)) {
            Ok(f) => f,
            Err(e) => {
                return Err(e);
            },
        };
        Ok(BookRequest { book_id: parsed.1, title: parsed.0, auth, folder })
    }

    /// The request for an immediate dispatch, resolved from the command's
    /// own URL and inputs; no queue interaction. The same error conditions
    /// as [`BookRequest::new_from_record`], over the command's URL.
    pub fn try_from_command(cmd: Commands, env: &Env) -> (r: Result<BookRequest, QueueError>)
        requires
            cmd is Download || cmd is Pueue,
        ensures
            cmd.url_arg() matches Some(u) ==> {
                &&& (r matches Ok(req) ==> request_ok(
                    req,
                    u@,
                    cmd.auth_arg(),
                    cmd.folder_arg(),
                    *env,
                ))
                &&& (!has_book_url_shape(u@) ==> r == Err::<BookRequest, QueueError>(
                    QueueError::InvalidUrl,
                ))
                &&& ((has_book_url_shape(u@) && arg_or_env_spec(cmd.auth_arg(), env.auth) is None)
                    ==> r == Err::<BookRequest, QueueError>(QueueError::MissingCredential))
                &&& ((has_book_url_shape(u@) && arg_or_env_spec(cmd.auth_arg(), env.auth) is Some)
                    ==> r is Ok)
            },
    {
        let (url, auth_arg, folder_arg) = match cmd {
            Commands::Download { url, auth, folder } => (url, auth, folder),
            Commands::Pueue { url, auth, folder } => (url, auth, folder),
            _ => {
                return Err(QueueError::InvalidUrl);
            },
        };
        let parsed = match parse_url(url.as_str()) {
            Some(p) => p,
            None => {
                return Err(QueueError::InvalidUrl);
            },
        };
        let auth = match get_arg_or_env(auth_arg, clone_opt(&env.auth)) {
            Some(a) => a,
            None => {
                return Err(QueueError::MissingCredential);
            },
        };
        let folder = match get_arg_or_env(folder_arg, clone_opt(&env.folder)) {
            Some(f) => f,
            None => "~".to_owned(),
        };
        Ok(BookRequest { book_id: parsed.1, title: parsed.0, auth, folder })
    }

    /// The shell command line that hands this request to the external fetch
    /// action, exactly: the fetch tool invocation with the book id and
    /// credential, redirected into `folder/title.epub`.
    pub fn to_cmd(&self) -> (r: String)
        ensures
            r@ == "(docker run kirinnee/orly:latest login "@ + self.book_id@ + " "@ + self.auth@
                + ") > \""@ + self.folder@ + "/"@ + self.title@ + ".epub\""@,
    {
        let mut s = String::from_str("(docker run kirinnee/orly:latest login ");
        s.append(self.book_id.as_str());
        s.append(" ");
        s.append(self.auth.as_str());
        s.append(") > \"");
        s.append(self.folder.as_str());
        s.append("/");
        s.append(self.title.as_str());
        s.append(".epub\"");
        s
    }
}

} // verus!
