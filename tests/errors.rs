use git_projects_core::{Error, Result};

#[test]
fn test_error_display() {
    let err = Error::path_not_found("/nonexistent/path");
    assert_eq!(err.to_string(), "Path does not exist: /nonexistent/path");

    let err = Error::not_a_directory("/some/file.txt");
    assert_eq!(err.to_string(), "Path is not a directory: /some/file.txt");

    let err = Error::invalid_url("not a url");
    assert_eq!(err.to_string(), "Invalid URL format: not a url");
}

#[test]
fn test_error_constructors() {
    let err = Error::git_remote("/path/to/repo", "Could not fetch");
    match err {
        Error::GitRemote { path, message } => {
            assert_eq!(path, "/path/to/repo".to_string());
            assert_eq!(message, "Could not fetch");
        }
        _ => panic!("Wrong error type"),
    }
}

#[test]
fn test_result_type_alias() {
    fn returns_result() -> Result<i32> {
        Ok(42)
    }

    assert_eq!(returns_result().unwrap(), 42);
}

#[test]
fn every_error_message() {
    assert_eq!(
        Error::git_open("/r", "bad head").to_string(),
        "Failed to open Git repository at /r: bad head"
    );
    assert_eq!(
        Error::git_discover("/r", "none").to_string(),
        "Failed to discover Git repository from /r: none"
    );
    assert_eq!(
        Error::git_config("/r", "unreadable").to_string(),
        "Failed to read Git config for /r: unreadable"
    );
    assert_eq!(
        Error::git_remote("/r", "gone").to_string(),
        "Failed to access remotes for /r: gone"
    );
    assert_eq!(Error::l10n("missing").to_string(), "Localization error: missing");
    assert_eq!(Error::other("plain").to_string(), "plain");
    assert_eq!(Error::Io("denied".to_string()).to_string(), "I/O error: denied");
    assert_eq!(Error::Json("eof".to_string()).to_string(), "JSON error: eof");
}
