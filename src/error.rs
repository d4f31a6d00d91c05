//! The errors of scanning and analysis.
use vstd::prelude::*;
use vstd::string::*;

verus! {

/// What can go wrong while scanning directories and reading repositories.
/// Underlying failures are carried as their message.
#[derive(Clone, Debug, PartialEq, Eq)]
pub enum Error {
    /// The filesystem could not be read.
    Io(String),
    /// A repository could not be opened.
    GitOpen { path: String, message: String },
    /// No repository could be discovered from a path.
    GitDiscover { path: String, message: String },
    /// A repository's configuration could not be read.
    GitConfig { path: String, message: String },
    /// A repository's remotes could not be read.
    GitRemote { path: String, message: String },
    /// A path does not exist.
    PathNotFound(String),
    /// A path is not a directory.
    NotADirectory(String),
    /// A URL could not be read.
    InvalidUrl(String),
    /// Messages could not be loaded or formatted.
    L10n(String),
    /// Data could not be converted to or from JSON.
    Json(String),
    /// Anything else.
    Other(String),
}

/// The outcome of an operation of this library.
pub type Result<T> = core::result::Result<T, Error>;

/// `prefix`, then `a`, then `sep`, then `b`.
pub open spec fn joined(prefix: Seq<char>, a: Seq<char>, sep: Seq<char>, b: Seq<char>) -> Seq<char> {
    prefix + a + sep + b
}

/// The human-readable message of an error.
pub open spec fn message_of(e: Error) -> Seq<char> {
    match e {
        Error::Io(m) => "I/O error: "@ + m@,
        Error::GitOpen { path, message } => joined(
            "Failed to open Git repository at "@,
            path@,
            ": "@,
            message@,
        ),
        Error::GitDiscover { path, message } => joined(
            "Failed to discover Git repository from "@,
            path@,
            ": "@,
            message@,
        ),
        Error::GitConfig { path, message } => joined(
            "Failed to read Git config for "@,
            path@,
            ": "@,
            message@,
        ),
        Error::GitRemote { path, message } => joined(
            "Failed to access remotes for "@,
            path@,
            ": "@,
            message@,
        ),
        Error::PathNotFound(p) => "Path does not exist: "@ + p@,
        Error::NotADirectory(p) => "Path is not a directory: "@ + p@,
        Error::InvalidUrl(u) => "Invalid URL format: "@ + u@,
        Error::L10n(m) => "Localization error: "@ + m@,
        Error::Json(m) => "JSON error: "@ + m@,
        Error::Other(m) => m@,
    }
}

fn prefixed(prefix: &str, a: &String) -> (r: String)
    ensures
        r@ == prefix@ + a@,
{
    let mut r = String::from_str(prefix);
    r.append(a.as_str());
    r
}

fn joined_exec(prefix: &str, a: &String, b: &String) -> (r: String)
    ensures
        r@ == joined(prefix@, a@, ": "@, b@),
{
    let mut r = String::from_str(prefix);
    r.append(a.as_str());
    r.append(": ");
    r.append(b.as_str());
    r
}

impl Error {
    /// A repository at `path` could not be opened, for the reason `message`.
    pub fn git_open(path: &str, message: &str) -> (r: Error)
        ensures
            r matches Error::GitOpen { path: p, message: m } && p@ == path@ && m@ == message@,
    {
        Error::GitOpen { path: String::from_str(path), message: String::from_str(message) }
    }

    /// No repository could be discovered from `path`, for the reason `message`.
    pub fn git_discover(path: &str, message: &str) -> (r: Error)
        ensures
            r matches Error::GitDiscover { path: p, message: m } && p@ == path@ && m@ == message@,
    {
        Error::GitDiscover { path: String::from_str(path), message: String::from_str(message) }
    }

    /// The configuration of the repository at `path` could not be read.
    pub fn git_config(path: &str, message: &str) -> (r: Error)
        ensures
            r matches Error::GitConfig { path: p, message: m } && p@ == path@ && m@ == message@,
    {
        Error::GitConfig { path: String::from_str(path), message: String::from_str(message) }
    }

    /// The remotes of the repository at `path` could not be read.
    pub fn git_remote(path: &str, message: &str) -> (r: Error)
        ensures
            r matches Error::GitRemote { path: p, message: m } && p@ == path@ && m@ == message@,
    {
        Error::GitRemote { path: String::from_str(path), message: String::from_str(message) }
    }

    /// `path` does not exist.
    pub fn path_not_found(path: &str) -> (r: Error)
        ensures
            r matches Error::PathNotFound(p) && p@ == path@,
    {
        Error::PathNotFound(String::from_str(path))
    }

    /// `path` is not a directory.
    pub fn not_a_directory(path: &str) -> (r: Error)
        ensures
            r matches Error::NotADirectory(p) && p@ == path@,
    {
        Error::NotADirectory(String::from_str(path))
    }

    /// `url` could not be read.
    pub fn invalid_url(url: &str) -> (r: Error)
        ensures
            r matches Error::InvalidUrl(u) && u@ == url@,
    {
        Error::InvalidUrl(String::from_str(url))
    }

    /// Messages could not be loaded or formatted.
    pub fn l10n(message: &str) -> (r: Error)
        ensures
            r matches Error::L10n(m) && m@ == message@,
    {
        Error::L10n(String::from_str(message))
    }

    /// Any other failure.
    pub fn other(message: &str) -> (r: Error)
        ensures
            r matches Error::Other(m) && m@ == message@,
    {
        Error::Other(String::from_str(message))
    }

    /// The human-readable message of this error.
    pub fn to_string(&self) -> (r: String)
        ensures
            r@ == message_of(*self),
    {
        match self {
            Error::Io(m) => prefixed("I/O error: ", m),
            Error::GitOpen { path, message } => joined_exec(
                "Failed to open Git repository at ",
                path,
                message,
            ),
            Error::GitDiscover { path, message } => joined_exec(
                "Failed to discover Git repository from ",
                path,
                message,
            ),
            Error::GitConfig { path, message } => joined_exec(
                "Failed to read Git config for ",
                path,
                message,
            ),
            Error::GitRemote { path, message } => joined_exec(
                "Failed to access remotes for ",
                path,
                message,
            ),
            Error::PathNotFound(p) => prefixed("Path does not exist: ", p),
            Error::NotADirectory(p) => prefixed("Path is not a directory: ", p),
            Error::InvalidUrl(u) => prefixed("Invalid URL format: ", u),
            Error::L10n(m) => prefixed("Localization error: ", m),
            Error::Json(m) => prefixed("JSON error: ", m),
            Error::Other(m) => m.clone(),
        }
    }
}

} // verus!
