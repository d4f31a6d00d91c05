//! The scanning engine: which walked entries are examined, which of them are
//! repository roots, which roots are reported, and how the results of several
//! roots are combined.
//!
//! The walk itself and the repository reads are done by the caller; each
//! decision between them is made here. Paths are text with `/` between
//! components, written without a trailing separator below a root.
use vstd::prelude::*;
use vstd::string::*;
use crate::error::Error;
use crate::git_analyzer::{
    RemoteEntry, describes, extract_remote_urls, fetchable, resolve_git_config,
};
use crate::models::{ConfigScope, GitConfig, GitProject, ScanConfig, Timestamp, opt_text};
use crate::strs::{occurs_at_exec, same_str};

verus! {

/// `p` lies strictly below the directory `r`: `r` is a leading run of whole
/// components of `p`, and `p` is longer.
pub open spec fn strictly_inside(p: Seq<char>, r: Seq<char>) -> bool {
    &&& 0 < r.len() < p.len()
    &&& p.subrange(0, r.len() as int) == r
    &&& (r.last() == '/' || p[r.len() as int] == '/')
}

/// `p` lies strictly below one of `known`.
pub open spec fn inside_any(p: Seq<char>, known: Seq<String>) -> bool {
    exists|i: int| 0 <= i < known.len() && #[trigger] strictly_inside(p, known[i]@)
}

/// An entry at `depth` below its root is within the depth bound.
pub open spec fn within_depth(depth: nat, max_depth: Option<usize>) -> bool {
    match max_depth {
        Some(m) => depth <= m,
        None => true,
    }
}

fn is_strictly_inside(p: &str, r: &str) -> (b: bool)
    ensures
        b == strictly_inside(p@, r@),
{
    let n = r.unicode_len();
    let m = p.unicode_len();
    if n == 0 || n >= m {
        return false;
    }
    if !occurs_at_exec(p, r, 0) {
        return false;
    }
    r.get_char(n - 1) == '/' || p.get_char(n) == '/'
}

/// The scanner: its settings are how much it reports while working.
#[derive(Clone, Debug)]
pub struct DefaultScanner {
    /// Whether each skip and find is reported.
    pub verbose: bool,
}

impl DefaultScanner {
    /// A scanner that reports nothing while working.
    pub fn new() -> (r: DefaultScanner)
        ensures
            !r.verbose,
    {
        DefaultScanner { verbose: false }
    }

    /// The same scanner with verbose reporting set to `verbose`.
    pub fn with_verbose(self, verbose: bool) -> (r: DefaultScanner)
        ensures
            r.verbose == verbose,
    {
        let mut s = self;
        s.verbose = verbose;
        s
    }

    /// Whether `path` lies strictly below one of `known_repos`.
    pub fn is_inside_known_repo(&self, path: &str, known_repos: &Vec<String>) -> (r: bool)
        ensures
            r == inside_any(path@, known_repos@),
    {
        let mut i: usize = 0;
        while i < known_repos.len()
            invariant
                i <= known_repos@.len(),
                forall|k: int| 0 <= k < i ==> !strictly_inside(path@, #[trigger] known_repos@[k]@),
            decreases known_repos@.len() - i,
        {
            if is_strictly_inside(path, known_repos[i].as_str()) {
                return true;
            }
            i = i + 1;
        }
        false
    }
}

impl Default for DefaultScanner {
    fn default() -> (r: DefaultScanner)
        ensures
            !r.verbose,
    {
        DefaultScanner::new()
    }
}

/// The kind of a repository root.
#[derive(Clone, Copy, Debug, PartialEq, Eq, Structural)]
pub enum RepoKind {
    /// Its git directory is a directory.
    Regular,
    /// Its git directory is a file that points elsewhere: a submodule or a
    /// linked worktree.
    Linked,
}

/// What repository discovery reported when started at a walked path.
#[derive(Clone, Debug)]
pub struct Discovery {
    /// The working tree of the repository found, if it has one.
    pub workdir: Option<String>,
    /// Its git directory (or the `.git` file that points to it).
    pub git_dir: String,
    /// The parent directory of `git_dir`, if it has one.
    pub git_dir_parent: Option<String>,
    /// Whether `git_dir` is a file.
    pub git_dir_is_file: bool,
}

/// Discovery started at `path` found the repository rooted at `path` itself,
/// not one further up.
pub open spec fn is_root(path: Seq<char>, d: Discovery) -> bool {
    match d.workdir {
        Some(w) => w@ == path,
        None => d.git_dir@ == path || opt_text(d.git_dir_parent) == Some(path),
    }
}

/// The kind of repository rooted at `path`, if discovery found one there.
pub open spec fn kind_at(path: Seq<char>, d: Discovery) -> Option<RepoKind> {
    if is_root(path, d) {
        Some(if d.git_dir_is_file { RepoKind::Linked } else { RepoKind::Regular })
    } else {
        None
    }
}

/// The path a repository is recorded under: its working tree, or its git
/// directory when it has none.
pub open spec fn record_path(d: Discovery) -> Seq<char> {
    match d.workdir {
        Some(w) => w@,
        None => d.git_dir@,
    }
}

/// Whether discovery started at `path` found the repository rooted there, and
/// of which kind.
pub fn detect_repository(path: &str, found: &Discovery) -> (r: Option<RepoKind>)
    ensures
        r == kind_at(path@, *found),
{
    let root = match &found.workdir {
        Some(w) => same_str(w.as_str(), path),
        None => same_str(found.git_dir.as_str(), path) || match &found.git_dir_parent {
            Some(p) => same_str(p.as_str(), path),
            None => false,
        },
    };
    if !root {
        None
    } else if found.git_dir_is_file {
        Some(RepoKind::Linked)
    } else {
        Some(RepoKind::Regular)
    }
}

/// Whether a repository of kind `kind` is reported.
pub fn should_include(kind: RepoKind, include_submodules: bool) -> (r: bool)
    ensures
        r == (kind == RepoKind::Regular || include_submodules),
{
    match kind {
        RepoKind::Regular => true,
        RepoKind::Linked => include_submodules,
    }
}

/// The user identity values read from a repository's merged configuration.
#[derive(Clone, Debug)]
pub struct Identity {
    pub user_name: Option<String>,
    pub user_email: Option<String>,
}

/// What was read from a repository root besides its discovery.
#[derive(Clone, Debug)]
pub struct RepoFacts {
    /// A `.gitmodules` file stands in the working tree.
    pub has_submodules: bool,
    /// The configured remotes, in the order they were listed.
    pub remotes: Vec<RemoteEntry>,
    /// The identity values, or `None` when the configuration could not be read.
    pub identity: Option<Identity>,
    /// When the repository was read.
    pub scanned_at: Timestamp,
}

/// `s` without its trailing `/` characters.
pub open spec fn strip_slashes(s: Seq<char>) -> Seq<char>
    decreases s.len(),
{
    if s.len() > 0 && s.last() == '/' {
        strip_slashes(s.drop_last())
    } else {
        s
    }
}

/// The characters of `s` after its last `/`.
pub open spec fn after_last_slash(s: Seq<char>) -> Seq<char>
    decreases s.len(),
{
    if s.len() == 0 || s.last() == '/' {
        Seq::empty()
    } else {
        after_last_slash(s.drop_last()).push(s.last())
    }
}

/// The name of the repository at `path`: its last component, or `unknown`
/// when it has none (an empty path, the filesystem root, `.` or `..`).
pub open spec fn name_of(path: Seq<char>) -> Seq<char> {
    let c = after_last_slash(strip_slashes(path));
    if c.len() == 0 || c == "."@ || c == ".."@ {
        "unknown"@
    } else {
        c
    }
}

/// The last component of `path`, or `unknown` when it has none.
pub fn project_name(path: &str) -> (r: String)
    ensures
        r@ == name_of(path@),
{
    let mut end = path.unicode_len();
    assert(path@.subrange(0, end as int) =~= path@);
    while end > 0 && path.get_char(end - 1) == '/'
        invariant
            end <= path@.len(),
            strip_slashes(path@.subrange(0, end as int)) == strip_slashes(path@),
        decreases end,
    {
        assert(path@.subrange(0, end as int).drop_last() =~= path@.subrange(0, end - 1));
        end = end - 1;
    }
    let ghost stripped = path@.subrange(0, end as int);
    assert(strip_slashes(stripped) == stripped);
    let mut start = end;
    assert(path@.subrange(start as int, end as int) =~= Seq::<char>::empty());
    assert(stripped =~= path@.subrange(0, start as int));
    while start > 0 && path.get_char(start - 1) != '/'
        invariant
            start <= end <= path@.len(),
            stripped == path@.subrange(0, end as int),
            after_last_slash(stripped) == after_last_slash(path@.subrange(0, start as int))
                + path@.subrange(start as int, end as int),
        decreases start,
    {
        let ghost before = path@.subrange(0, start as int);
        assert(before.drop_last() =~= path@.subrange(0, start - 1));
        assert(path@.subrange(start - 1, end as int) =~= seq![before.last()]
            + path@.subrange(start as int, end as int));
        assert(after_last_slash(path@.subrange(0, start - 1)).push(before.last())
            + path@.subrange(start as int, end as int) =~= after_last_slash(
            path@.subrange(0, start - 1),
        ) + path@.subrange(start - 1, end as int));
        start = start - 1;
    }
    assert(after_last_slash(path@.subrange(0, start as int)) =~= Seq::<char>::empty());
    let c = path.substring_char(start, end);
    assert(c@ =~= after_last_slash(stripped));
    if c.unicode_len() == 0 || same_str(c, ".") || same_str(c, "..") {
        String::from_str("unknown")
    } else {
        String::from_str(c)
    }
}

/// The identity configuration recorded for `identity`: `None` when it could
/// not be read.
pub open spec fn config_for(identity: Option<Identity>, config: Option<GitConfig>) -> bool {
    match identity {
        None => config is None,
        Some(id) => config matches Some(c) && c.user_name == id.user_name && c.user_email
            == id.user_email && c.scope == (if id.user_name is Some || id.user_email is Some {
            ConfigScope::Local
        } else {
            ConfigScope::System
        }),
    }
}

/// `p` is the record of the repository at `path` with kind `kind` and the
/// facts `f`.
pub open spec fn project_of(p: GitProject, path: Seq<char>, kind: RepoKind, f: RepoFacts) -> bool {
    &&& p.name@ == name_of(path)
    &&& p.path@ == path
    &&& p.is_submodule == (kind == RepoKind::Linked)
    &&& p.has_submodules == f.has_submodules
    &&& p.last_scanned == f.scanned_at
    &&& p.remotes@.len() == fetchable(f.remotes@).len()
    &&& forall|i: int|
        0 <= i < p.remotes@.len() ==> describes(
            #[trigger] p.remotes@[i],
            fetchable(f.remotes@)[i].0,
            fetchable(f.remotes@)[i].1,
        )
    &&& config_for(f.identity, p.config)
}

/// The record of the repository at `path`: its name, remotes with what their
/// URLs tell, identity configuration, and submodule flags.
pub fn analyze_repository(path: &str, kind: RepoKind, facts: RepoFacts) -> (r: GitProject)
    ensures
        project_of(r, path@, kind, facts),
{
    let name = project_name(path);
    let remotes = extract_remote_urls(&facts.remotes);
    let config = match facts.identity {
        Some(id) => Some(resolve_git_config(id.user_name, id.user_email)),
        None => None,
    };
    GitProject {
        name,
        path: String::from_str(path),
        remotes,
        config,
        is_submodule: match kind {
            RepoKind::Regular => false,
            RepoKind::Linked => true,
        },
        has_submodules: facts.has_submodules,
        last_scanned: facts.scanned_at,
    }
}

/// A record with path `p` is among `ps`.
pub open spec fn has_path(ps: Seq<GitProject>, p: Seq<char>) -> bool {
    exists|i: int| 0 <= i < ps.len() && (#[trigger] ps[i]).path@ == p
}

fn find_path(ps: &Vec<GitProject>, p: &str) -> (r: bool)
    ensures
        r == has_path(ps@, p@),
{
    let mut i: usize = 0;
    while i < ps.len()
        invariant
            i <= ps@.len(),
            forall|k: int| 0 <= k < i ==> (#[trigger] ps@[k]).path@ != p@,
        decreases ps@.len() - i,
    {
        if same_str(ps[i].path.as_str(), p) {
            return true;
        }
        i = i + 1;
    }
    false
}

/// The state of the scan of one root: the repository roots confirmed so far
/// and the records made of them, with the policy of the scan.
pub struct RootScan {
    /// The walked paths at which a repository was recorded, one per record.
    pub known: Vec<String>,
    /// The records, in the order the repositories were found.
    pub projects: Vec<GitProject>,
    pub max_depth: Option<usize>,
    pub follow_symlinks: bool,
    pub include_submodules: bool,
}

impl RootScan {
    /// Each record has its confirmed root, no two records share a path, and no
    /// submodule is recorded unless submodules are reported.
    pub open spec fn wf(&self) -> bool {
        &&& self.known@.len() == self.projects@.len()
        &&& forall|i: int, j: int|
            0 <= i < j < self.projects@.len() ==> (#[trigger] self.projects@[i]).path@
                != (#[trigger] self.projects@[j]).path@
        &&& forall|i: int|
            0 <= i < self.projects@.len() ==> (#[trigger] self.projects@[i]).is_submodule
                ==> self.include_submodules
    }

    /// The entry at `path`, `depth` levels below the root, is examined for a
    /// repository: it is within the depth bound, it is not a link that is not
    /// followed, and it is not below a repository already confirmed.
    pub open spec fn inspects(&self, path: Seq<char>, depth: nat, is_symlink: bool) -> bool {
        &&& within_depth(depth, self.max_depth)
        &&& (self.follow_symlinks || !is_symlink)
        &&& !inside_any(path, self.known@)
    }

    /// The repository that discovery `d` found from `path` is recorded: it is
    /// rooted at `path`, it is reported, it is not below a confirmed root, and
    /// no record has its path yet.
    pub open spec fn accepts_at(&self, path: Seq<char>, d: Discovery) -> bool {
        &&& kind_at(path, d) matches Some(k)
        &&& (k == RepoKind::Regular || self.include_submodules)
        &&& !inside_any(path, self.known@)
        &&& !has_path(self.projects@, record_path(d))
    }

    /// A fresh scan with the policy of `config`.
    pub fn new(config: &ScanConfig) -> (r: RootScan)
        ensures
            r.wf(),
            r.known@.len() == 0,
            r.projects@.len() == 0,
            r.max_depth == config.max_depth,
            r.follow_symlinks == config.follow_symlinks,
            r.include_submodules == config.include_submodules,
    {
        RootScan {
            known: Vec::new(),
            projects: Vec::new(),
            max_depth: config.max_depth,
            follow_symlinks: config.follow_symlinks,
            include_submodules: config.include_submodules,
        }
    }

    /// Whether the walked entry at `path`, `depth` levels below the root, is
    /// examined for a repository.
    pub fn should_inspect(&self, scanner: &DefaultScanner, path: &str, depth: usize, is_symlink: bool) -> (r: bool)
        ensures
            r == self.inspects(path@, depth as nat, is_symlink),
    {
        let in_depth = match self.max_depth {
            Some(m) => depth <= m,
            None => true,
        };
        if !in_depth {
            return false;
        }
        if !self.follow_symlinks && is_symlink {
            return false;
        }
        !scanner.is_inside_known_repo(path, &self.known)
    }

    /// Whether the repository that discovery `found` reported from `path` is
    /// to be read and recorded.
    pub fn accepts(&self, scanner: &DefaultScanner, path: &str, found: &Discovery) -> (r: bool)
        ensures
            r == self.accepts_at(path@, *found),
    {
        let kind = match detect_repository(path, found) {
            Some(k) => k,
            None => return false,
        };
        if !should_include(kind, self.include_submodules) {
            return false;
        }
        if scanner.is_inside_known_repo(path, &self.known) {
            return false;
        }
        let rp = match &found.workdir {
            Some(w) => w.as_str(),
            None => found.git_dir.as_str(),
        };
        !find_path(&self.projects, rp)
    }

    /// Records the repository that discovery `found` reported from `path`, with
    /// the facts read from it, when `accepts_at` holds; otherwise changes nothing.
    /// Returns whether it was recorded.
    pub fn record(&mut self, scanner: &DefaultScanner, path: &str, found: &Discovery, facts: RepoFacts) -> (r: bool)
        requires
            old(self).wf(),
        ensures
            final(self).wf(),
            r == old(self).accepts_at(path@, *found),
            final(self).max_depth == old(self).max_depth,
            final(self).follow_symlinks == old(self).follow_symlinks,
            final(self).include_submodules == old(self).include_submodules,
            r ==> final(self).known@.len() == old(self).known@.len() + 1,
            r ==> final(self).known@.drop_last() == old(self).known@,
            r ==> final(self).known@.last()@ == path@,
            r ==> final(self).projects@.drop_last() == old(self).projects@,
            r ==> project_of(
                final(self).projects@.last(),
                record_path(*found),
                kind_at(path@, *found)->0,
                facts,
            ),
            !r ==> final(self).known@ == old(self).known@,
            !r ==> final(self).projects@ == old(self).projects@,
    {
        if !self.accepts(scanner, path, found) {
            return false;
        }
        let kind = match detect_repository(path, found) {
            Some(k) => k,
            None => return false,
        };
        let rp = match &found.workdir {
            Some(w) => w.as_str(),
            None => found.git_dir.as_str(),
        };
        let project = analyze_repository(rp, kind, facts);
        let ghost old_projects = self.projects@;
        self.known.push(String::from_str(path));
        self.projects.push(project);
        proof {
            assert(self.projects@.drop_last() =~= old_projects);
            assert(self.known@.drop_last() =~= old(self).known@);
            assert forall|i: int, j: int|
                0 <= i < j < self.projects@.len() implies (#[trigger] self.projects@[i]).path@
                != (#[trigger] self.projects@[j]).path@ by {
                if j == self.projects@.len() - 1 {
                    assert(old_projects[i] == self.projects@[i]);
                }
            }
        }
        true
    }

    /// The records made so far.
    pub fn into_projects(self) -> (r: Vec<GitProject>)
        ensures
            r == self.projects,
    {
        self.projects
    }
}

/// `acc` extended by each of `ps` in order, leaving out those whose path is
/// already recorded.
pub open spec fn add_all(acc: Seq<GitProject>, ps: Seq<GitProject>) -> Seq<GitProject>
    decreases ps.len(),
{
    if ps.len() == 0 {
        acc
    } else {
        let a = add_all(acc, ps.drop_last());
        if has_path(a, ps.last().path@) {
            a
        } else {
            a.push(ps.last())
        }
    }
}

/// No two of `ps` share a path.
pub open spec fn distinct_paths(ps: Seq<GitProject>) -> bool {
    forall|i: int, j: int| 0 <= i < j < ps.len() ==> (#[trigger] ps[i]).path@ != (#[trigger] ps[j]).path@
}

/// The results of a whole scan, gathered root by root.
pub struct Catalog {
    pub projects: Vec<GitProject>,
}

impl Catalog {
    /// No two records share a path.
    pub open spec fn wf(&self) -> bool {
        distinct_paths(self.projects@)
    }

    /// An empty catalog.
    pub fn new() -> (r: Catalog)
        ensures
            r.wf(),
            r.projects@.len() == 0,
    {
        Catalog { projects: Vec::new() }
    }

    /// Adds the outcome of scanning one root: its records when it succeeded,
    /// leaving out any whose path is already recorded, and nothing when it
    /// failed, so that one failing root never stops the others.
    pub fn add_root(&mut self, outcome: Result<Vec<GitProject>, Error>)
        requires
            old(self).wf(),
        ensures
            final(self).wf(),
            match outcome {
                Ok(ps) => final(self).projects@ == add_all(old(self).projects@, ps@),
                Err(_) => final(self).projects@ == old(self).projects@,
            },
    {
        let mut ps = match outcome {
            Ok(ps) => ps,
            Err(_) => return,
        };
        let ghost acc0 = self.projects@;
        let ghost all = ps@;
        let ghost mut k: int = 0;
        while ps.len() > 0
            invariant
                0 <= k <= all.len(),
                ps@ == all.skip(k),
                self.projects@ == add_all(acc0, all.take(k)),
                distinct_paths(self.projects@),
            decreases ps@.len(),
        {
            assert(all.take(k + 1).drop_last() =~= all.take(k));
            assert(all.take(k + 1).last() == all[k]);
            let p = ps.remove(0);
            assert(ps@ =~= all.skip(k + 1));
            if !find_path(&self.projects, p.path.as_str()) {
                let ghost before = self.projects@;
                self.projects.push(p);
                assert forall|i: int, j: int|
                    0 <= i < j < self.projects@.len() implies (#[trigger] self.projects@[i]).path@
                    != (#[trigger] self.projects@[j]).path@ by {
                    if j == self.projects@.len() - 1 {
                        assert(before[i] == self.projects@[i]);
                    }
                }
            }
            proof {
                k = k + 1;
            }
        }
        assert(all.take(k) =~= all);
    }

    /// The records gathered.
    pub fn into_projects(self) -> (r: Vec<GitProject>)
        ensures
            r == self.projects,
    {
        self.projects
    }
}

/// Once a repository is confirmed at a walked path, no path strictly below it
/// is examined again, and none is recorded, whatever discovery reports there:
/// nested repositories are never reported.
pub proof fn lemma_no_nested_repository(
    s: RootScan,
    i: int,
    path: Seq<char>,
    depth: nat,
    is_symlink: bool,
    d: Discovery,
)
    requires
        0 <= i < s.known@.len(),
        strictly_inside(path, s.known@[i]@),
    ensures
        !s.inspects(path, depth, is_symlink),
        !s.accepts_at(path, d),
{
    assert(inside_any(path, s.known@));
}

/// When submodules are not reported, no record is of a submodule or a linked
/// worktree.
pub proof fn lemma_no_submodules_when_excluded(s: RootScan)
    requires
        s.wf(),
        !s.include_submodules,
    ensures
        no_submodules(s.projects@),
{
}

/// No record of `ps` is of a submodule or a linked worktree.
pub open spec fn no_submodules(ps: Seq<GitProject>) -> bool {
    forall|i: int| 0 <= i < ps.len() ==> !(#[trigger] ps[i]).is_submodule
}

/// Gathering roots whose records hold no submodule yields none either, so a
/// whole scan that does not report submodules reports none.
pub proof fn lemma_catalog_keeps_no_submodules(acc: Seq<GitProject>, ps: Seq<GitProject>)
    requires
        no_submodules(acc),
        no_submodules(ps),
    ensures
        no_submodules(add_all(acc, ps)),
    decreases ps.len(),
{
    if ps.len() > 0 {
        assert(no_submodules(ps.drop_last())) by {
            assert forall|i: int| 0 <= i < ps.drop_last().len() implies !(
            #[trigger] ps.drop_last()[i]).is_submodule by {
                assert(ps.drop_last()[i] == ps[i]);
            }
        }
        lemma_catalog_keeps_no_submodules(acc, ps.drop_last());
        assert(!ps[ps.len() - 1].is_submodule);
    }
}

/// With a depth bound of zero only the roots themselves are examined: no entry
/// below a root is.
pub proof fn lemma_depth_zero_checks_roots_only(
    s: RootScan,
    path: Seq<char>,
    depth: nat,
    is_symlink: bool,
)
    requires
        s.max_depth == Some(0usize),
        depth > 0,
    ensures
        !s.inspects(path, depth, is_symlink),
{
}

/// When links are not followed a symbolic link is never examined, so never
/// taken for a repository; when they are, a link is examined exactly when the
/// same entry would be if it were a directory.
pub proof fn lemma_symlink_policy(s: RootScan, path: Seq<char>, depth: nat)
    ensures
        !s.follow_symlinks ==> !s.inspects(path, depth, true),
        s.follow_symlinks ==> (s.inspects(path, depth, true) == s.inspects(path, depth, false)),
{
}

/// Checks that a root to scan exists and is a directory.
pub fn check_root(path: &str, exists: bool, is_dir: bool) -> (r: Result<(), Error>)
    ensures
        !exists ==> (r matches Err(Error::PathNotFound(p)) && p@ == path@),
        exists && !is_dir ==> (r matches Err(Error::NotADirectory(p)) && p@ == path@),
        exists && is_dir ==> r is Ok,
{
    if !exists {
        return Err(Error::path_not_found(path));
    }
    if !is_dir {
        return Err(Error::not_a_directory(path));
    }
    Ok(())
}

} // verus!
