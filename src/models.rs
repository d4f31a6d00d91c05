//! The records that a scan produces and the parameters that drive it.
use vstd::prelude::*;
use vstd::string::*;

verus! {

/// The text of an optional string.
pub open spec fn opt_text(o: Option<String>) -> Option<Seq<char>> {
    match o {
        Some(s) => Some(s@),
        None => None,
    }
}

/// A moment in time: whole seconds since the Unix epoch and the nanoseconds
/// past that second.
#[derive(Clone, Copy, Debug, PartialEq, Eq, Structural, PartialOrd, Ord, Hash)]
pub struct Timestamp {
    pub secs: i64,
    pub nanos: u32,
}

/// One configured remote: its name, its fetch URL, and what the URL tells of
/// the hosting service and the account.
#[derive(Clone, Debug, PartialEq, Eq, Hash)]
pub struct RemoteUrl {
    pub name: String,
    pub url: String,
    pub service: Option<String>,
    pub account: Option<String>,
}

/// The configuration level an identity value came from.
#[derive(Clone, Copy, Debug, PartialEq, Eq, Structural)]
pub enum ConfigScope {
    /// The repository's own configuration.
    Local,
    /// The user's configuration.
    Global,
    /// The machine-wide configuration.
    System,
}

/// The user identity configured for a repository, with the scope it came from.
#[derive(Clone, Debug, PartialEq, Eq)]
pub struct GitConfig {
    pub user_name: Option<String>,
    pub user_email: Option<String>,
    pub scope: ConfigScope,
}

/// One discovered repository.
#[derive(Clone, Debug, PartialEq, Eq)]
pub struct GitProject {
    /// The last component of `path`.
    pub name: String,
    /// The root of the working tree (the git directory for a bare repository).
    pub path: String,
    pub remotes: Vec<RemoteUrl>,
    pub config: Option<GitConfig>,
    /// The repository's git directory is a file that points elsewhere
    /// (a submodule or a linked worktree).
    pub is_submodule: bool,
    /// A `.gitmodules` file stands in the working tree.
    pub has_submodules: bool,
    pub last_scanned: Timestamp,
}

/// What a scan looks at and how far it goes.
#[derive(Clone, Debug)]
pub struct ScanConfig {
    /// The directories to scan.
    pub root_paths: Vec<String>,
    /// How many levels below a root are visited; `None` means no bound, and
    /// `Some(0)` checks the roots alone.
    pub max_depth: Option<usize>,
    /// Whether symbolic links are followed and their targets considered.
    pub follow_symlinks: bool,
    /// Whether submodules and linked worktrees are reported.
    pub include_submodules: bool,
}

/// Relies on dirs::home_dir for the current user's home directory, as text.
/// What it returns depends on the environment, so nothing is promised of it.
#[verifier::external_body]
fn home_dir() -> Option<String> {
    dirs::home_dir().map(|p| p.to_string_lossy().into_owned())
}

impl Default for ScanConfig {
    /// Scans the home directory (or the current directory when there is none),
    /// three levels deep, without following links, reporting submodules.
    fn default() -> (r: ScanConfig)
        ensures
            r.root_paths@.len() == 1,
            r.max_depth == Some(3usize),
            !r.follow_symlinks,
            r.include_submodules,
    {
        let root = match home_dir() {
            Some(h) => h,
            None => String::from_str("."),
        };
        let mut root_paths: Vec<String> = Vec::new();
        root_paths.push(root);
        ScanConfig { root_paths, max_depth: Some(3), follow_symlinks: false, include_submodules: true }
    }
}

} // verus!
