//! Discovers Git repositories under filesystem roots and describes each one:
//! location, remotes with their hosting service and account, identity
//! configuration with its scope, and submodule relationships.
use vstd::prelude::*;

pub mod display;
pub mod error;
pub mod git_analyzer;
pub mod l10n;
pub mod models;
pub mod scanner;
pub mod strs;

pub use error::{Error, Result};
pub use git_analyzer::{extract_remote_urls, parse_git_url, resolve_git_config};
pub use models::{ConfigScope, GitConfig, GitProject, RemoteUrl, ScanConfig, Timestamp};
pub use scanner::{Catalog, DefaultScanner, Discovery, RepoFacts, RepoKind, RootScan};

verus! {

/// The library's version.
pub const VERSION: &'static str = "0.1.0";

/// The library's package name.
pub const NAME: &'static str = "git-projects-core";

} // verus!
