use git_projects_core::scanner::{
    check_root, detect_repository, project_name, should_include, Identity,
};
use git_projects_core::git_analyzer::RemoteEntry;
use git_projects_core::{
    Catalog, ConfigScope, DefaultScanner, Discovery, Error, GitProject, RepoFacts, RepoKind,
    RootScan, ScanConfig, Timestamp,
};

fn config(max_depth: Option<usize>, follow_symlinks: bool, include_submodules: bool) -> ScanConfig {
    ScanConfig {
        root_paths: vec!["/tmp/root".to_string()],
        max_depth,
        follow_symlinks,
        include_submodules,
    }
}

fn regular(path: &str) -> Discovery {
    Discovery {
        workdir: Some(path.to_string()),
        git_dir: format!("{}/.git", path),
        git_dir_parent: Some(path.to_string()),
        git_dir_is_file: false,
    }
}

fn linked(path: &str) -> Discovery {
    Discovery { git_dir_is_file: true, ..regular(path) }
}

fn facts() -> RepoFacts {
    RepoFacts {
        has_submodules: false,
        remotes: vec![],
        identity: None,
        scanned_at: Timestamp { secs: 1_700_000_000, nanos: 5 },
    }
}

fn project(path: &str) -> GitProject {
    GitProject {
        name: "p".to_string(),
        path: path.to_string(),
        remotes: vec![],
        config: None,
        is_submodule: false,
        has_submodules: false,
        last_scanned: Timestamp { secs: 0, nanos: 0 },
    }
}

#[test]
fn test_scanner_creation() {
    let scanner = DefaultScanner::new();
    assert!(!scanner.verbose);

    let scanner = DefaultScanner::new().with_verbose(true);
    assert!(scanner.verbose);
}

#[test]
fn test_is_inside_known_repo() {
    let scanner = DefaultScanner::new();
    let mut known = Vec::new();
    let repo_path = "/a/b/c".to_string();
    known.push(repo_path.clone());

    assert!(scanner.is_inside_known_repo(&format!("{}/d", repo_path), &known));
    assert!(!scanner.is_inside_known_repo(&repo_path, &known));
    assert!(!scanner.is_inside_known_repo("/a/b/other", &known));
}

#[test]
fn inside_known_repo_is_by_whole_components() {
    let scanner = DefaultScanner::new();
    let known = vec!["/a/b/c".to_string(), "/".to_string()];
    assert!(!scanner.is_inside_known_repo("/a/b/cd", &known[..1].to_vec()));
    assert!(scanner.is_inside_known_repo("/x", &known));
    assert!(!scanner.is_inside_known_repo("/a/b", &known[..1].to_vec()));
}

#[test]
fn test_scan_nonexistent_path() {
    let mut catalog = Catalog::new();
    let result = check_root("/nonexistent/path/that/does/not/exist", false, false);
    match result {
        Err(e) => catalog.add_root(Err(e)),
        Ok(()) => panic!("a missing root is not scanned"),
    }
    assert_eq!(catalog.into_projects().len(), 0);
}

#[test]
fn failing_root_does_not_hide_sibling_results() {
    let mut catalog = Catalog::new();
    catalog.add_root(Err(Error::path_not_found("/missing")));
    catalog.add_root(Ok(vec![project("/home/u/a"), project("/home/u/b")]));
    catalog.add_root(Err(Error::not_a_directory("/etc/passwd")));
    let all = catalog.into_projects();
    assert_eq!(all.len(), 2);
    assert_eq!(all[0].path, "/home/u/a");
    assert_eq!(all[1].path, "/home/u/b");
}

#[test]
fn catalog_keeps_one_record_per_path() {
    let mut catalog = Catalog::new();
    catalog.add_root(Ok(vec![project("/r/a"), project("/r/b")]));
    catalog.add_root(Ok(vec![project("/r/b"), project("/r/c"), project("/r/c")]));
    let paths: Vec<String> = catalog.into_projects().into_iter().map(|p| p.path).collect();
    assert_eq!(paths, vec!["/r/a".to_string(), "/r/b".to_string(), "/r/c".to_string()]);
}

#[test]
fn check_root_errors() {
    assert_eq!(check_root("/nope", false, false), Err(Error::PathNotFound("/nope".to_string())));
    assert_eq!(
        check_root("/etc/hosts", true, false),
        Err(Error::NotADirectory("/etc/hosts".to_string()))
    );
    assert_eq!(check_root("/tmp", true, true), Ok(()));
}

#[test]
fn nested_repository_two_levels_down_is_not_reported() {
    for include_submodules in [true, false] {
        let scanner = DefaultScanner::new();
        let mut scan = RootScan::new(&config(Some(3), false, include_submodules));
        assert!(scan.should_inspect(&scanner, "/tmp/root/outer", 1, false));
        assert!(scan.record(&scanner, "/tmp/root/outer", &regular("/tmp/root/outer"), facts()));
        assert!(!scan.should_inspect(&scanner, "/tmp/root/outer/src", 2, false));
        assert!(!scan.should_inspect(&scanner, "/tmp/root/outer/src/inner", 3, false));
        assert!(!scan.record(
            &scanner,
            "/tmp/root/outer/src/inner",
            &regular("/tmp/root/outer/src/inner"),
            facts()
        ));
        assert!(scan.should_inspect(&scanner, "/tmp/root/outer2", 1, false));
        let projects = scan.into_projects();
        assert_eq!(projects.len(), 1);
        assert_eq!(projects[0].path, "/tmp/root/outer");
        assert_eq!(projects[0].name, "outer");
    }
}

#[test]
fn depth_zero_checks_only_the_root() {
    let scanner = DefaultScanner::new();
    let scan = RootScan::new(&config(Some(0), false, true));
    assert!(scan.should_inspect(&scanner, "/tmp/root", 0, false));
    assert!(!scan.should_inspect(&scanner, "/tmp/root/a", 1, false));
    let scan = RootScan::new(&config(Some(1), false, true));
    assert!(scan.should_inspect(&scanner, "/tmp/root/a", 1, false));
    assert!(!scan.should_inspect(&scanner, "/tmp/root/a/b", 2, false));
    let scan = RootScan::new(&config(None, false, true));
    assert!(scan.should_inspect(&scanner, "/tmp/root/a/b/c/d/e", 5, false));
}

#[test]
fn symlinks_follow_the_policy() {
    let scanner = DefaultScanner::new();
    let scan = RootScan::new(&config(Some(1), false, true));
    assert!(!scan.should_inspect(&scanner, "/tmp/root/symlink-to-repo", 1, true));
    assert!(scan.should_inspect(&scanner, "/tmp/root/real-repo", 1, false));

    let mut scan = RootScan::new(&config(Some(1), true, true));
    assert!(scan.record(&scanner, "/tmp/root/real-repo", &regular("/tmp/root/real-repo"), facts()));
    assert!(scan.should_inspect(&scanner, "/tmp/root/symlink-to-repo", 1, true));
    assert!(scan.record(
        &scanner,
        "/tmp/root/symlink-to-repo",
        &regular("/tmp/root/symlink-to-repo"),
        facts()
    ));
    assert_eq!(scan.into_projects().len(), 2);
}

#[test]
fn submodules_follow_the_policy() {
    let scanner = DefaultScanner::new();
    let mut scan = RootScan::new(&config(Some(3), false, false));
    assert!(!scan.record(&scanner, "/tmp/root/sub", &linked("/tmp/root/sub"), facts()));
    assert!(scan.record(&scanner, "/tmp/root/main", &regular("/tmp/root/main"), facts()));
    let projects = scan.into_projects();
    assert_eq!(projects.len(), 1);
    assert!(projects.iter().all(|p| !p.is_submodule));

    let mut scan = RootScan::new(&config(Some(3), false, true));
    assert!(scan.record(&scanner, "/tmp/root/worktree", &linked("/tmp/root/worktree"), facts()));
    assert!(scan.record(&scanner, "/tmp/root/main_repo", &regular("/tmp/root/main_repo"), facts()));
    let projects = scan.into_projects();
    assert_eq!(projects.len(), 2);
    assert!(projects[0].is_submodule);
    assert!(!projects[1].is_submodule);
}

#[test]
fn discovery_of_a_parent_repository_is_not_a_root() {
    let found = regular("/tmp/root/repo");
    assert_eq!(detect_repository("/tmp/root/repo/src", &found), None);
    assert_eq!(detect_repository("/tmp/root/repo", &found), Some(RepoKind::Regular));
    assert_eq!(detect_repository("/tmp/root/repo", &linked("/tmp/root/repo")), Some(RepoKind::Linked));
    let bare = Discovery {
        workdir: None,
        git_dir: "/srv/x.git".to_string(),
        git_dir_parent: Some("/srv".to_string()),
        git_dir_is_file: false,
    };
    assert_eq!(detect_repository("/srv/x.git", &bare), Some(RepoKind::Regular));
    assert_eq!(detect_repository("/srv", &bare), Some(RepoKind::Regular));
    assert_eq!(detect_repository("/srv/y", &bare), None);
    assert!(should_include(RepoKind::Regular, false));
    assert!(!should_include(RepoKind::Linked, false));
    assert!(should_include(RepoKind::Linked, true));
}

#[test]
fn record_describes_the_repository() {
    let scanner = DefaultScanner::new();
    let mut scan = RootScan::new(&config(Some(3), false, true));
    let f = RepoFacts {
        has_submodules: true,
        remotes: vec![
            RemoteEntry { name: "origin".to_string(), fetch_url: Some("https://github.com/me/tool.git".to_string()) },
            RemoteEntry { name: "dead".to_string(), fetch_url: None },
        ],
        identity: Some(Identity { user_name: Some("Me".to_string()), user_email: None }),
        scanned_at: Timestamp { secs: 42, nanos: 7 },
    };
    assert!(scan.record(&scanner, "/tmp/root/tool", &regular("/tmp/root/tool"), f));
    let p = &scan.into_projects()[0];
    assert_eq!(p.name, "tool");
    assert!(p.has_submodules);
    assert!(!p.is_submodule);
    assert_eq!(p.remotes.len(), 1);
    assert_eq!(p.remotes[0].account, Some("me".to_string()));
    let c = p.config.clone().unwrap();
    assert_eq!(c.user_name, Some("Me".to_string()));
    assert_eq!(c.scope, ConfigScope::Local);
    assert_eq!(p.last_scanned, Timestamp { secs: 42, nanos: 7 });
}

#[test]
fn same_record_path_is_kept_once() {
    let scanner = DefaultScanner::new();
    let mut scan = RootScan::new(&config(None, true, true));
    assert!(scan.record(&scanner, "/r/a", &regular("/r/a"), facts()));
    assert!(!scan.record(&scanner, "/r/a", &regular("/r/a"), facts()));
    assert_eq!(scan.into_projects().len(), 1);
}

#[test]
fn project_names() {
    assert_eq!(project_name("/home/user/projects/my-repo"), "my-repo");
    assert_eq!(project_name("/home/user/projects/my-repo/"), "my-repo");
    assert_eq!(project_name("repo"), "repo");
    assert_eq!(project_name("/"), "unknown");
    assert_eq!(project_name(""), "unknown");
    assert_eq!(project_name(".."), "unknown");
}
