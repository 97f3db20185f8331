use oreally::{BookRecord, BookRequest, Commands, Env, QueueError};

static URL: &str = "https://learning.oreilly.com/library/view/learn-postgresql/9781838985288";

fn empty_env() -> Env {
    Env { auth: None, folder: None }
}

#[test]
fn book_request_new_from_record() {
    let r = BookRequest::new_from_record(
        &BookRecord::new(URL),
        &Commands::Start {
            auth: Some("auth".to_string()),
            folder: Some("folder".to_string()),
        },
        &empty_env(),
    )
    .unwrap();

    assert_eq!(r.book_id, "9781838985288");
    assert_eq!(r.title, "learn-postgresql");
}

#[test]
fn command_into_book_request() {
    let cmd = Commands::Download {
        url: URL.to_string(),
        auth: Some("auth".to_string()),
        folder: Some("folder".to_string()),
    };
    let r = BookRequest::try_from_command(cmd, &empty_env()).unwrap();
    assert_eq!(r.book_id, "9781838985288");
    assert_eq!(r.title, "learn-postgresql");
}

#[test]
fn dispatch_with_invalid_url_fails() {
    let cmd = Commands::Download {
        url: "https://learning.example.com/library/view/fdfd".to_string(),
        auth: Some("auth".to_string()),
        folder: Some("folder".to_string()),
    };
    let r = BookRequest::try_from_command(cmd, &empty_env());
    assert!(matches!(r, Err(QueueError::InvalidUrl)));
}

#[test]
fn dispatch_without_credential_fails() {
    let cmd = Commands::Download {
        url: URL.to_string(),
        auth: None,
        folder: None,
    };
    let r = BookRequest::try_from_command(cmd, &empty_env());
    assert!(matches!(r, Err(QueueError::MissingCredential)));
}

#[test]
fn dispatch_resolves_from_environment_values() {
    let cmd = Commands::Download {
        url: URL.to_string(),
        auth: None,
        folder: None,
    };
    let env = Env {
        auth: Some("ambient-auth".to_string()),
        folder: Some("ambient-folder".to_string()),
    };
    let r = BookRequest::try_from_command(cmd, &env).unwrap();
    assert_eq!(r.auth, "ambient-auth");
    assert_eq!(r.folder, "ambient-folder");
}

#[test]
fn request_folder_defaults_to_home_placeholder() {
    let cmd = Commands::Download {
        url: URL.to_string(),
        auth: Some("auth".to_string()),
        folder: None,
    };
    let r = BookRequest::try_from_command(cmd, &empty_env()).unwrap();
    assert_eq!(r.folder, "~");
}

#[test]
fn new_from_record_rejects_invalid_url() {
    let r = BookRequest::new_from_record(
        &BookRecord::new("https://learning.example.com/library/view/fdfd"),
        &Commands::Start {
            auth: Some("auth".to_string()),
            folder: None,
        },
        &empty_env(),
    );
    assert!(matches!(r, Err(QueueError::InvalidUrl)));
}

#[test]
fn new_from_record_without_credential_fails() {
    let r = BookRequest::new_from_record(
        &BookRecord::new(URL),
        &Commands::Start { auth: None, folder: None },
        &empty_env(),
    );
    assert!(matches!(r, Err(QueueError::MissingCredential)));
}

#[test]
fn to_cmd_builds_the_fetch_command_line() {
    let req = BookRequest {
        book_id: "9781838985288".to_string(),
        title: "learn-postgresql".to_string(),
        auth: "auth".to_string(),
        folder: "folder".to_string(),
    };
    assert_eq!(
        req.to_cmd(),
        "(docker run kirinnee/orly:latest login 9781838985288 auth) > \"folder/learn-postgresql.epub\""
    );
}
