//! Turning a reference string (`https://host/owner/name`, `git@host:owner/name`
//! or `owner/name`) into a `(host, owner, name)` identity.
use vstd::prelude::*;
use crate::error::RepoError;
use crate::text::{
    ends_with, find_char, has_infix, has_prefix, has_suffix, lemma_split_first_concat, occurs_in,
    slice, split_at_first, split_first, starts_with,
};

verus! {

pub open spec fn git_suffix() -> Seq<char> {
    seq!['.', 'g', 'i', 't']
}

pub open spec fn https_scheme() -> Seq<char> {
    seq!['h', 't', 't', 'p', 's', ':', '/', '/']
}

pub open spec fn ssh_prefix() -> Seq<char> {
    seq!['g', 'i', 't', '@']
}

pub open spec fn scheme_marker() -> Seq<char> {
    seq![':', '/', '/']
}

/// The hosting domain assumed for a short `owner/name` reference.
pub open spec fn canonical_host() -> Seq<char> {
    seq!['g', 'i', 't', 'h', 'u', 'b', '.', 'c', 'o', 'm']
}

/// `s` without one trailing `.git`.
pub open spec fn strip_git(s: Seq<char>) -> Seq<char> {
    if ends_with(s, git_suffix()) {
        s.take(s.len() - 4)
    } else {
        s
    }
}

/// `p` is `owner/name`: exactly one `/`, with a non-empty segment on each side.
pub open spec fn owner_name(p: Seq<char>) -> Option<(Seq<char>, Seq<char>)> {
    match split_first(p, '/') {
        Some((o, n)) => if o.len() > 0 && n.len() > 0 && !n.contains('/') {
            Some((o, n))
        } else {
            None
        },
        None => None,
    }
}

/// The identity in `git@host:owner/name` (after the `.git` suffix is gone).
pub open spec fn ssh_identity(s: Seq<char>) -> Option<(Seq<char>, Seq<char>, Seq<char>)> {
    if starts_with(s, ssh_prefix()) {
        match split_first(s.skip(4), ':') {
            Some((h, path)) => if h.len() > 0 {
                match owner_name(path) {
                    Some((o, n)) => Some((h, o, n)),
                    None => None,
                }
            } else {
                None
            },
            None => None,
        }
    } else {
        None
    }
}

/// The identity read from the host and path that a URL parser reported: the
/// host must be present and non-empty, the path (less one leading `/`) must be
/// `owner/name`.
pub open spec fn identity_from_parts(host: Option<Seq<char>>, path: Seq<char>) -> Option<
    (Seq<char>, Seq<char>, Seq<char>),
> {
    match host {
        Some(h) => {
            let p = if starts_with(path, seq!['/']) {
                path.skip(1)
            } else {
                path
            };
            if h.len() > 0 {
                match owner_name(p) {
                    Some((o, n)) => Some((h, o, n)),
                    None => None,
                }
            } else {
                None
            }
        },
        None => None,
    }
}

/// `s` is accepted by the URL parser.
pub uninterp spec fn url_parses(s: Seq<char>) -> bool;

/// The host that the URL parser reports for `s`.
pub uninterp spec fn url_host_of(s: Seq<char>) -> Option<Seq<char>>;

/// The path that the URL parser reports for `s`.
pub uninterp spec fn url_path_of(s: Seq<char>) -> Seq<char>;

pub open spec fn https_identity(s: Seq<char>) -> Option<(Seq<char>, Seq<char>, Seq<char>)> {
    if url_parses(s) {
        identity_from_parts(url_host_of(s), url_path_of(s))
    } else {
        None
    }
}

/// The identity named by a full URL reference, HTTPS or SSH.
pub open spec fn url_identity(u: Seq<char>) -> Option<(Seq<char>, Seq<char>, Seq<char>)> {
    let s = strip_git(u);
    if starts_with(s, https_scheme()) {
        https_identity(s)
    } else if starts_with(s, ssh_prefix()) {
        ssh_identity(s)
    } else {
        None
    }
}

/// Relies on `url::Url::parse` to parse an absolute URL, and on
/// `url::Url::host_str` and `url::Url::path` to read the host and the path of
/// the parsed value. What they return depends on the input string alone.
#[verifier::external_body]
fn parse_url(s: &str) -> (r: Option<(Option<String>, String)>)
    ensures
        r is Some <==> url_parses(s@),
        r matches Some((h, p)) ==> p@ == url_path_of(s@) && match h {
            Some(h) => url_host_of(s@) == Some(h@),
            None => url_host_of(s@) is None,
        },
{
    match url::Url::parse(s) {
        Ok(u) => Some((u.host_str().map(String::from), u.path().to_string())),
        Err(_) => None,
    }
}

/// The identity named by a short `owner/name` reference.
pub open spec fn short_identity(s: Seq<char>) -> Option<(Seq<char>, Seq<char>, Seq<char>)> {
    match owner_name(s) {
        Some((o, n)) => Some((canonical_host(), o, n)),
        None => None,
    }
}

/// The identity named by any reference: a string holding `://` or starting
/// with `git@` is a URL, anything else a short `owner/name`.
pub open spec fn reference_identity(s: Seq<char>) -> Option<(Seq<char>, Seq<char>, Seq<char>)> {
    if occurs_in(s, scheme_marker()) || starts_with(s, ssh_prefix()) {
        url_identity(s)
    } else {
        short_identity(s)
    }
}

/// The characters of an optional string.
pub open spec fn opt_view(o: Option<String>) -> Option<Seq<char>> {
    match o {
        Some(x) => Some(x@),
        None => None,
    }
}

/// `r` is the outcome owed on `input` by a parser whose accepted inputs and
/// their identities are given by `expected`.
pub open spec fn parsed_as(
    r: Result<(String, String, String), RepoError>,
    expected: Option<(Seq<char>, Seq<char>, Seq<char>)>,
    input: Seq<char>,
) -> bool {
    match r {
        Ok((h, o, n)) => expected == Some((h@, o@, n@)),
        Err(e) => expected is None && (e matches RepoError::InvalidFormat(m) && m@ == input),
    }
}

/// Splits an `owner/name` pair: exactly one `/`, both segments non-empty.
pub fn split_owner_name(p: &str) -> (r: Option<(String, String)>)
    ensures
        match r {
            Some((o, n)) => owner_name(p@) == Some((o@, n@)),
            None => owner_name(p@) is None,
        },
{
    match split_at_first(p, '/') {
        Some((o, n)) => {
            if o.as_str().unicode_len() == 0 || n.as_str().unicode_len() == 0 {
                return None;
            }
            match find_char(n.as_str(), '/') {
                Some(i) => {
                    assert(n@[i as int] == '/');
                    None
                },
                None => Some((o, n)),
            }
        },
        None => None,
    }
}

/// `s` with one trailing `.git` removed, if it has one.
pub fn strip_git_suffix(s: &str) -> (r: String)
    ensures
        r@ == strip_git(s@),
{
    proof {
        reveal_strlit(".git");
    }
    assert(".git"@ =~= git_suffix());
    if has_suffix(s, ".git") {
        slice(s, 0, s.unicode_len() - 4)
    } else {
        String::from_str(s)
    }
}

/// The identity in `git@host:owner/name`.
fn ssh_parts(s: &str) -> (r: Option<(String, String, String)>)
    requires
        starts_with(s@, ssh_prefix()),
    ensures
        match r {
            Some((h, o, n)) => ssh_identity(s@) == Some((h@, o@, n@)),
            None => ssh_identity(s@) is None,
        },
{
    let rest = slice(s, 4, s.unicode_len());
    assert(rest@ == s@.skip(4));
    match split_at_first(rest.as_str(), ':') {
        Some((h, path)) => {
            if h.as_str().unicode_len() == 0 {
                return None;
            }
            match split_owner_name(path.as_str()) {
                Some((o, n)) => Some((h, o, n)),
                None => None,
            }
        },
        None => None,
    }
}

/// The identity given by the host and the path that a URL parser reported
/// for a reference: the host must be present and non-empty, and the path,
/// less one leading `/`, must be `owner/name`.
pub fn identity_from_url_parts(host: Option<String>, path: &str) -> (r: Option<(String, String, String)>)
    ensures
        match r {
            Some((h, o, n)) => identity_from_parts(opt_view(host), path@) == Some((h@, o@, n@)),
            None => identity_from_parts(opt_view(host), path@) is None,
        },
{
    proof {
        reveal_strlit("/");
    }
    assert("/"@ =~= seq!['/']);
    match host {
        Some(h) => {
            let p = if has_prefix(path, "/") {
                slice(path, 1, path.unicode_len())
            } else {
                String::from_str(path)
            };
            if h.as_str().unicode_len() == 0 {
                return None;
            }
            match split_owner_name(p.as_str()) {
                Some((o, n)) => Some((h, o, n)),
                None => None,
            }
        },
        None => None,
    }
}

/// Parses a full URL reference, `https://host/owner/name` or
/// `git@host:owner/name`, either with an optional trailing `.git`.
pub fn parse_repository_url(url: &str) -> (r: Result<(String, String, String), RepoError>)
    ensures
        parsed_as(r, url_identity(url@), url@),
{
    proof {
        reveal_strlit("https://");
        reveal_strlit("git@");
    }
    assert("https://"@ =~= https_scheme());
    assert("git@"@ =~= ssh_prefix());
    let s = strip_git_suffix(url);
    let parts = if has_prefix(s.as_str(), "https://") {
        match parse_url(s.as_str()) {
            Some((h, p)) => identity_from_url_parts(h, p.as_str()),
            None => None,
        }
    } else if has_prefix(s.as_str(), "git@") {
        ssh_parts(s.as_str())
    } else {
        None
    };
    match parts {
        Some(t) => Ok(t),
        None => Err(RepoError::InvalidFormat(String::from_str(url))),
    }
}

/// Parses a short `owner/name` reference; the host is the canonical domain.
pub fn parse_repo_name(input: &str) -> (r: Result<(String, String, String), RepoError>)
    ensures
        parsed_as(r, short_identity(input@), input@),
{
    proof {
        reveal_strlit("github.com");
    }
    assert("github.com"@ =~= canonical_host());
    match split_owner_name(input) {
        Some((o, n)) => Ok((String::from_str("github.com"), o, n)),
        None => Err(RepoError::InvalidFormat(String::from_str(input))),
    }
}

/// Parses any reference: a URL when it holds `://` or starts with `git@`,
/// a short `owner/name` otherwise.
pub fn parse_reference(input: &str) -> (r: Result<(String, String, String), RepoError>)
    ensures
        parsed_as(r, reference_identity(input@), input@),
{
    proof {
        reveal_strlit("://");
        reveal_strlit("git@");
    }
    assert("://"@ =~= scheme_marker());
    assert("git@"@ =~= ssh_prefix());
    if has_infix(input, "://") || has_prefix(input, "git@") {
        parse_repository_url(input)
    } else {
        parse_repo_name(input)
    }
}

/// `s` with `.git` appended when `suffix` holds.
pub open spec fn with_git(s: Seq<char>, suffix: bool) -> Seq<char> {
    if suffix {
        s + git_suffix()
    } else {
        s
    }
}

proof fn lemma_strip_git(s: Seq<char>, suffix: bool)
    requires
        suffix || !ends_with(s, git_suffix()),
    ensures
        strip_git(with_git(s, suffix)) == s,
{
    let t = with_git(s, suffix);
    if suffix {
        assert(t.skip(t.len() - 4) =~= git_suffix());
        assert(t.take(t.len() - 4) =~= s);
    }
}

/// A pair of non-empty segments without `/`, joined by one `/`, is read back
/// as that owner and name.
pub proof fn lemma_owner_name(o: Seq<char>, n: Seq<char>)
    requires
        o.len() > 0,
        n.len() > 0,
        !o.contains('/'),
        !n.contains('/'),
    ensures
        owner_name(o + seq!['/'] + n) == Some((o, n)),
{
    lemma_split_first_concat(o, '/', n);
}

/// An SSH reference `git@host:path`, with or without a trailing `.git`,
/// yields `(host, owner, name)` exactly when `path` is `owner/name` with two
/// non-empty segments; with any other segment count it is rejected.
pub proof fn lemma_ssh_reference(host: Seq<char>, path: Seq<char>, suffix: bool)
    requires
        host.len() > 0,
        !host.contains(':'),
        suffix || !ends_with(path, git_suffix()),
    ensures
        url_identity(with_git(ssh_prefix() + host + seq![':'] + path, suffix)) == match owner_name(path) {
            Some((o, n)) => Some((host, o, n)),
            None => None,
        },
{
    let s = ssh_prefix() + host + seq![':'] + path;
    if !suffix && s.len() >= 4 {
        if path.len() >= 4 {
            assert(s.skip(s.len() - 4) =~= path.skip(path.len() - 4));
        } else {
            let k = 3 - path.len();
            assert(s.skip(s.len() - 4)[k] == ':');
            assert(git_suffix()[k] != ':');
        }
    }
    lemma_strip_git(s, suffix);
    assert(s.take(4) =~= ssh_prefix());
    assert(!starts_with(s, https_scheme())) by {
        assert(s[0] == 'g');
        assert(https_scheme()[0] == 'h');
        if s.len() >= 8 {
            assert(s.take(8)[0] == 'g');
        }
    }
    assert(s.skip(4) =~= host + seq![':'] + path);
    lemma_split_first_concat(host, ':', path);
}

/// An HTTPS reference that the URL parser accepts with a non-empty host and
/// the path `/p` yields `(host, owner, name)` exactly when `p` is `owner/name`
/// with two non-empty segments; with any other segment count it is rejected.
pub proof fn lemma_https_reference(u: Seq<char>, host: Seq<char>, p: Seq<char>)
    requires
        starts_with(strip_git(u), https_scheme()),
        url_parses(strip_git(u)),
        url_host_of(strip_git(u)) == Some(host),
        url_path_of(strip_git(u)) == seq!['/'] + p,
        host.len() > 0,
    ensures
        url_identity(u) == match owner_name(p) {
            Some((o, n)) => Some((host, o, n)),
            None => None,
        },
{
    let path = seq!['/'] + p;
    assert(path.take(1) =~= seq!['/']);
    assert(path.skip(1) =~= p);
}

/// A short `owner/name` reference gets the canonical host.
pub proof fn lemma_short_reference(o: Seq<char>, n: Seq<char>)
    requires
        o.len() > 0,
        n.len() > 0,
        !o.contains('/'),
        !n.contains('/'),
    ensures
        short_identity(o + seq!['/'] + n) == Some((canonical_host(), o, n)),
{
    lemma_owner_name(o, n);
}

/// Short references with three segments, an empty owner or an empty name
/// are rejected.
pub proof fn lemma_short_reference_rejects(o: Seq<char>, n: Seq<char>, x: Seq<char>)
    requires
        !o.contains('/'),
    ensures
        short_identity(o + seq!['/'] + n + seq!['/'] + x) is None,
        short_identity(seq!['/'] + n) is None,
        short_identity(o + seq!['/']) is None,
{
    let a = o + seq!['/'] + n + seq!['/'] + x;
    assert(a =~= o + seq!['/'] + (n + seq!['/'] + x));
    lemma_split_first_concat(o, '/', n + seq!['/'] + x);
    assert((n + seq!['/'] + x)[n.len() as int] == '/');
    let e = Seq::<char>::empty();
    assert(seq!['/'] + n =~= e + seq!['/'] + n);
    lemma_split_first_concat(e, '/', n);
    assert(o + seq!['/'] =~= o + seq!['/'] + e);
    lemma_split_first_concat(o, '/', e);
}

} // verus!
