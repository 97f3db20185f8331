use oreally::{get_arg_or_env, Commands, QueueError};

#[test]
fn get_arg_or_env_panics() {
    get_arg_or_env(None, None);
}

#[test]
fn test_get_arg_or_env() {
    assert_eq!(
        get_arg_or_env(Some("Hello".to_string()), None),
        Some("Hello".to_string())
    );
    assert_eq!(
        get_arg_or_env(None, Some("env_value".to_string())),
        Some("env_value".to_string())
    );
    assert_eq!(
        get_arg_or_env(Some("Hello".to_string()), Some("env_value".to_string())),
        Some("Hello".to_string())
    );
}

#[test]
fn commands_auth() {
    assert_eq!(
        Commands::Start {
            auth: Some("auth".to_string()),
            folder: Some("folder".to_string()),
        }
        .auth(None)
        .unwrap(),
        "auth"
    );
    assert_eq!(
        Commands::Download {
            url: "tets".to_string(),
            auth: Some("auth".to_string()),
            folder: Some("folder".to_string()),
        }
        .auth(None)
        .unwrap(),
        "auth".to_string()
    );
}

#[test]
fn commands_folder() {
    assert_eq!(
        Commands::Download {
            url: "tets".to_string(),
            auth: Some("auth".to_string()),
            folder: Some("folder".to_string()),
        }
        .folder(None)
        .unwrap(),
        "folder".to_string()
    );
}

#[test]
fn auth_explicit_wins_over_environment() {
    let cmd = Commands::Start {
        auth: Some("explicit".to_string()),
        folder: None,
    };
    assert_eq!(cmd.auth(Some("ambient".to_string())).unwrap(), "explicit");
}

#[test]
fn auth_falls_back_to_environment() {
    let cmd = Commands::Start { auth: None, folder: None };
    assert_eq!(cmd.auth(Some("ambient".to_string())).unwrap(), "ambient");
}

#[test]
fn auth_missing_everywhere_fails() {
    let cmd = Commands::Start { auth: None, folder: None };
    assert_eq!(cmd.auth(None), Err(QueueError::MissingCredential));
}

#[test]
fn folder_explicit_wins_over_environment() {
    let cmd = Commands::Start {
        auth: None,
        folder: Some("explicit".to_string()),
    };
    assert_eq!(cmd.folder(Some("ambient".to_string())).unwrap(), "explicit");
}

#[test]
fn folder_falls_back_to_environment() {
    let cmd = Commands::Start { auth: None, folder: None };
    assert_eq!(cmd.folder(Some("ambient".to_string())).unwrap(), "ambient");
}

#[test]
fn folder_defaults_to_home_placeholder() {
    let cmd = Commands::Start { auth: None, folder: None };
    assert_eq!(cmd.folder(None).unwrap(), "~");
}
