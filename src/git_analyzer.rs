//! Reading hosting service and account out of remote URLs, and resolving the
//! scope of a repository's identity configuration.
use vstd::prelude::*;
use vstd::string::*;
use crate::models::{ConfigScope, GitConfig, RemoteUrl, opt_text};
use crate::strs::{
    contains_char, contains_seq, contains_str, field, field_of, occurs_at, occurs_at_exec,
    starts_with_seq, starts_with_str,
};

verus! {

/// What `str::to_lowercase` makes of a string.
pub uninterp spec fn lower_of(s: Seq<char>) -> Seq<char>;

/// Relies on str::to_lowercase: the lower-case form depends on the characters
/// alone, and an empty string stays empty.
#[verifier::external_body]
pub(crate) fn lowercase(s: &str) -> (r: String)
    ensures
        r@ == lower_of(s@),
        s@.len() == 0 ==> r@.len() == 0,
{
    s.to_lowercase()
}

/// The hosting service named by a (lower-case) URL: the first known domain
/// that occurs in it decides.
pub open spec fn service_of(s: Seq<char>) -> Option<Seq<char>> {
    if contains_seq(s, "github.com"@) {
        Some("github"@)
    } else if contains_seq(s, "gitlab.com"@) {
        Some("gitlab"@)
    } else if contains_seq(s, "bitbucket.org"@) {
        Some("bitbucket"@)
    } else if contains_seq(s, "codeberg.org"@) {
        Some("codeberg"@)
    } else if contains_seq(s, "sr.ht"@) {
        Some("sourcehut"@)
    } else {
        None
    }
}

/// `s` with every trailing `.git` removed.
pub open spec fn trim_git_suffix(s: Seq<char>) -> Seq<char>
    decreases s.len(),
{
    if s.len() >= 4 && occurs_at(s, ".git"@, s.len() - 4) {
        trim_git_suffix(s.subrange(0, s.len() - 4))
    } else {
        s
    }
}

/// The account of an HTTP(S) URL: the first path segment after the host.
pub open spec fn https_account(s: Seq<char>) -> Option<Seq<char>> {
    field(s, '/', 3)
}

/// The account of an SSH URL: the first path segment after the host (and port)
/// in `ssh://user@host[:port]/account/...`, or the segment after the colon in
/// `user@host:account/...`.
pub open spec fn ssh_account(s: Seq<char>) -> Option<Seq<char>> {
    if starts_with_seq(s, "ssh://"@) {
        match field(s.subrange(6, s.len() as int), '@', 1) {
            Some(host_and_path) => field(host_and_path, '/', 1),
            None => None,
        }
    } else {
        match field(s, '@', 1) {
            Some(host_and_path) => match field(host_and_path, ':', 1) {
                Some(path) => field(path, '/', 0),
                None => None,
            },
            None => None,
        }
    }
}

/// The account a URL names, read from the URL as written (case kept) once its
/// trailing `.git` is removed; `None` for any form other than HTTP(S) and SSH.
pub open spec fn account_of(url: Seq<char>) -> Option<Seq<char>> {
    let t = trim_git_suffix(url);
    if starts_with_seq(t, "http://"@) || starts_with_seq(t, "https://"@) {
        https_account(t)
    } else if t.contains('@') {
        ssh_account(t)
    } else {
        None
    }
}

fn text_of(s: &str) -> (r: Option<String>)
    ensures
        r matches Some(v) && v@ == s@,
{
    Some(String::from_str(s))
}

/// The hosting service named by `url`, matched against the known domains as
/// the text stands (`parse_git_url` hands it the lower-case form).
pub fn extract_service(url: &str) -> (r: Option<String>)
    ensures
        opt_text(r) == service_of(url@),
{
    if contains_str(url, "github.com") {
        text_of("github")
    } else if contains_str(url, "gitlab.com") {
        text_of("gitlab")
    } else if contains_str(url, "bitbucket.org") {
        text_of("bitbucket")
    } else if contains_str(url, "codeberg.org") {
        text_of("codeberg")
    } else if contains_str(url, "sr.ht") {
        text_of("sourcehut")
    } else {
        None
    }
}

/// `url` without its trailing `.git` suffixes.
pub fn trim_git(url: &str) -> (r: &str)
    ensures
        r@ == trim_git_suffix(url@),
{
    proof {
        reveal_strlit(".git");
    }
    let mut end = url.unicode_len();
    assert(url@.subrange(0, end as int) =~= url@);
    while end >= 4 && occurs_at_exec(url, ".git", end - 4)
        invariant
            end <= url@.len(),
            trim_git_suffix(url@.subrange(0, end as int)) == trim_git_suffix(url@),
        decreases end,
    {
        proof {
            reveal_strlit(".git");
        }
        let ghost cur = url@.subrange(0, end as int);
        assert(cur.subrange(cur.len() - 4, cur.len() as int) =~= url@.subrange(end - 4, end as int));
        assert(cur.subrange(0, cur.len() - 4) =~= url@.subrange(0, end - 4));
        assert(occurs_at(cur, ".git"@, cur.len() - 4));
        assert(trim_git_suffix(cur) == trim_git_suffix(cur.subrange(0, cur.len() - 4)));
        end = end - 4;
    }
    let r = url.substring_char(0, end);
    proof {
        let cur = url@.subrange(0, end as int);
        if end >= 4 {
            assert(cur.subrange(cur.len() - 4, cur.len() as int) =~= url@.subrange(end - 4, end as int));
        }
        assert(url@.subrange(0, url@.len() as int) =~= url@);
    }
    r
}

fn owned(f: Option<&str>) -> (r: Option<String>)
    ensures
        opt_text(r) == (match f {
            Some(s) => Some(s@),
            None => None::<Seq<char>>,
        }),
{
    match f {
        Some(s) => Some(String::from_str(s)),
        None => None,
    }
}

/// The account of an HTTP(S) URL (`https://host/account/repo`).
pub fn extract_account_from_https(url: &str) -> (r: Option<String>)
    ensures
        opt_text(r) == https_account(url@),
{
    owned(field_of(url, '/', 3))
}

/// The account of an SSH URL (`user@host:account/repo` or
/// `ssh://user@host[:port]/account/repo`).
pub fn extract_account_from_ssh(url: &str) -> (r: Option<String>)
    ensures
        opt_text(r) == ssh_account(url@),
{
    proof {
        reveal_strlit("ssh://");
    }
    if starts_with_str(url, "ssh://") {
        let after_protocol = url.substring_char(6, url.unicode_len());
        match field_of(after_protocol, '@', 1) {
            Some(after_at) => owned(field_of(after_at, '/', 1)),
            None => None,
        }
    } else {
        match field_of(url, '@', 1) {
            Some(after_at) => match field_of(after_at, ':', 1) {
                Some(after_colon) => owned(field_of(after_colon, '/', 0)),
                None => None,
            },
            None => None,
        }
    }
}

/// The account a URL names; `None` when its form is not recognised.
pub fn extract_account(url: &str) -> (r: Option<String>)
    ensures
        opt_text(r) == account_of(url@),
{
    let t = trim_git(url);
    if starts_with_str(t, "http://") || starts_with_str(t, "https://") {
        extract_account_from_https(t)
    } else if contains_char(t, '@') {
        extract_account_from_ssh(t)
    } else {
        None
    }
}

/// Reads the hosting service (from the lower-case URL) and the account (from
/// the URL as written) out of a remote URL. Never fails: what cannot be read
/// is `None`.
pub fn parse_git_url(url: &str) -> (r: (Option<String>, Option<String>))
    ensures
        opt_text(r.0) == service_of(lower_of(url@)),
        opt_text(r.1) == account_of(url@),
{
    let url_lower = lowercase(url);
    let service = extract_service(url_lower.as_str());
    let account = extract_account(url);
    (service, account)
}

/// A remote as configuration lists it: its name and its fetch URL, if any.
#[derive(Clone, Debug)]
pub struct RemoteEntry {
    pub name: String,
    pub fetch_url: Option<String>,
}

/// The (name, URL) pairs of the remotes that have a fetch URL, in order.
pub open spec fn fetchable(es: Seq<RemoteEntry>) -> Seq<(Seq<char>, Seq<char>)>
    decreases es.len(),
{
    if es.len() == 0 {
        Seq::empty()
    } else {
        let rest = fetchable(es.drop_last());
        match es.last().fetch_url {
            Some(u) => rest.push((es.last().name@, u@)),
            None => rest,
        }
    }
}

/// `r` records the remote `name` with URL `url` and what `parse_git_url` reads
/// from it.
pub open spec fn describes(r: RemoteUrl, name: Seq<char>, url: Seq<char>) -> bool {
    &&& r.name@ == name
    &&& r.url@ == url
    &&& opt_text(r.service) == service_of(lower_of(url))
    &&& opt_text(r.account) == account_of(url)
}

/// The remote records of a repository: one for each remote with a fetch URL,
/// in the order given; remotes without one are left out.
pub fn extract_remote_urls(entries: &Vec<RemoteEntry>) -> (r: Vec<RemoteUrl>)
    ensures
        r@.len() == fetchable(entries@).len(),
        forall|i: int|
            0 <= i < r@.len() ==> describes(
                #[trigger] r@[i],
                fetchable(entries@)[i].0,
                fetchable(entries@)[i].1,
            ),
{
    let mut out: Vec<RemoteUrl> = Vec::new();
    let mut i: usize = 0;
    while i < entries.len()
        invariant
            i <= entries@.len(),
            out@.len() == fetchable(entries@.take(i as int)).len(),
            forall|k: int|
                0 <= k < out@.len() ==> describes(
                    #[trigger] out@[k],
                    fetchable(entries@.take(i as int))[k].0,
                    fetchable(entries@.take(i as int))[k].1,
                ),
        decreases entries@.len() - i,
    {
        let e = &entries[i];
        assert(entries@.take(i + 1).drop_last() =~= entries@.take(i as int));
        assert(entries@.take(i + 1).last() == entries@[i as int]);
        match &e.fetch_url {
            Some(u) => {
                let (service, account) = parse_git_url(u.as_str());
                let rec = RemoteUrl {
                    name: e.name.clone(),
                    url: u.clone(),
                    service,
                    account,
                };
                out.push(rec);
            },
            None => {},
        }
        i = i + 1;
    }
    assert(entries@.take(entries@.len() as int) =~= entries@);
    out
}

/// The scope that a value found at all in the merged configuration is given:
/// the merged view has already applied precedence, so a found value is taken
/// to come from the most specific level, the repository's own.
pub fn get_config_value_with_scope(value: Option<String>) -> (r: (Option<String>, Option<ConfigScope>))
    ensures
        r.0 == value,
        r.1 == (if value is Some { Some(ConfigScope::Local) } else { None::<ConfigScope> }),
{
    match value {
        Some(v) => (Some(v), Some(ConfigScope::Local)),
        None => (None, None),
    }
}

/// The more specific of two optional scopes: Local over Global over System;
/// System when neither is given.
pub open spec fn combined_scope(a: Option<ConfigScope>, b: Option<ConfigScope>) -> ConfigScope {
    if a == Some(ConfigScope::Local) || b == Some(ConfigScope::Local) {
        ConfigScope::Local
    } else if a == Some(ConfigScope::Global) || b == Some(ConfigScope::Global) {
        ConfigScope::Global
    } else {
        ConfigScope::System
    }
}

/// Combines the scopes of the two identity values, the more specific winning.
pub fn determine_config_scope(scope1: Option<ConfigScope>, scope2: Option<ConfigScope>) -> (r:
    ConfigScope)
    ensures
        r == combined_scope(scope1, scope2),
        (scope1 is None && scope2 is None) ==> r == ConfigScope::System,
{
    match (scope1, scope2) {
        (Some(ConfigScope::Local), _) | (_, Some(ConfigScope::Local)) => ConfigScope::Local,
        (Some(ConfigScope::Global), _) | (_, Some(ConfigScope::Global)) => ConfigScope::Global,
        _ => ConfigScope::System,
    }
}

/// When only user-level (Global) values are visible the combined scope is
/// Global, and when no value is found it is System.
pub proof fn lemma_scope_precedence(a: Option<ConfigScope>, b: Option<ConfigScope>)
    ensures
        (a != Some(ConfigScope::Local) && b != Some(ConfigScope::Local) && (a == Some(
            ConfigScope::Global,
        ) || b == Some(ConfigScope::Global))) ==> combined_scope(a, b) == ConfigScope::Global,
        (a is None && b is None) ==> combined_scope(a, b) == ConfigScope::System,
        (a == Some(ConfigScope::Local) || b == Some(ConfigScope::Local)) ==> combined_scope(a, b)
            == ConfigScope::Local,
{
}

/// The identity configuration of a repository from the values of `user.name`
/// and `user.email` in its merged configuration.
pub fn resolve_git_config(user_name: Option<String>, user_email: Option<String>) -> (r: GitConfig)
    ensures
        r.user_name == user_name,
        r.user_email == user_email,
        r.scope == (if user_name is Some || user_email is Some {
            ConfigScope::Local
        } else {
            ConfigScope::System
        }),
{
    let (user_name, name_scope) = get_config_value_with_scope(user_name);
    let (user_email, email_scope) = get_config_value_with_scope(user_email);
    let scope = determine_config_scope(name_scope, email_scope);
    GitConfig { user_name, user_email, scope }
}

} // verus!
