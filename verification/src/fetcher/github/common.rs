//! Cross-cutting helpers for the `github_*` fetchers: repo slugs, timestamps and
//! the shared payload constructors.

use vstd::prelude::*;
use crate::text::opt_str_view;
use vstd::string::*;

use crate::fetcher::{
    format_key, keyed, push_format_key, push_shape_key, shape_key, spec_keyed, FetchContext,
    FetchError,
};
use crate::payload::{Body, LinesData, Payload};
use crate::text::{
    has_prefix, has_suffix,
    contains_char, is_first_index, lemma_first_index_exists, split_once, split_once_char,
    strip_prefix, strip_prefix_str, strip_suffix,
    strip_suffix_str,
};

verus! {

/// Seconds since the Unix epoch of an RFC 3339 timestamp, as chrono reads it.
pub uninterp spec fn rfc3339_seconds(raw: Seq<char>) -> Option<i64>;

/// Rust's `Debug` rendering of a string slice (quoted and escaped).
pub uninterp spec fn debug_str(raw: Seq<char>) -> Seq<char>;

/// Parses an RFC 3339 timestamp with `chrono::DateTime::parse_from_rfc3339` and
/// returns its Unix seconds. Claimed: the result is `rfc3339_seconds(raw)`, a
/// function of the text alone; what that function is stays chrono's.
#[verifier::external_body]
fn parse_rfc3339(raw: &str) -> (r: Option<i64>)
    ensures
        r == rfc3339_seconds(raw@),
{
    chrono::DateTime::parse_from_rfc3339(raw).ok().map(|dt| dt.timestamp())
}

/// Formats a string with `format!("{:?}")`. Claimed: the result is
/// `debug_str(raw)`, a function of the text alone.
#[verifier::external_body]
pub(crate) fn debug_quote(raw: &str) -> (r: String)
    ensures
        r@ == debug_str(raw@),
{
    format!("{raw:?}")
}

/// Unix timestamp of an RFC 3339 string, `0` when it does not parse.
pub fn parse_timestamp(raw: &str) -> (t: i64)
    ensures
        t == match rfc3339_seconds(raw@) {
            Some(s) => s,
            None => 0,
        },
{
    match parse_rfc3339(raw) {
        Some(s) => s,
        None => 0,
    }
}

/// Cache key of a fetch: the fetcher name plus a digest of name, shape, format and the
/// fetcher's own distinguishing text (such as the repository).
pub open spec fn spec_cache_key(name: Seq<char>, ctx: FetchContext, extra: Seq<char>) -> Seq<char> {
    spec_keyed(
        name,
        name + "|"@ + shape_key(ctx.shape) + "|"@ + format_key(ctx.format) + "|"@ + extra,
    )
}

/// Stable cache key for identical invocations.
pub fn cache_key(name: &str, ctx: &FetchContext, extra: &str) -> (k: String)
    ensures
        k@ == spec_cache_key(name@, *ctx, extra@),
{
    let mut raw = String::from_str(name);
    raw.append("|");
    push_shape_key(&mut raw, ctx.shape);
    raw.append("|");
    push_format_key(&mut raw, &ctx.format);
    raw.append("|");
    raw.append(extra);
    keyed(name, raw.as_str())
}

/// Wraps a body in an undecorated payload.
pub fn payload(body: Body) -> (p: Payload)
    ensures
        p.icon is None,
        p.status is None,
        p.format is None,
        p.body == body,
{
    crate::payload::payload(body)
}

/// A `Lines` body.
pub fn lines_body(values: Vec<String>) -> (b: Body)
    ensures
        b == Body::Lines(LinesData { lines: values }),
{
    Body::Lines(LinesData { lines: values })
}

/// Two-line warning payload for misconfigured widgets.
pub fn placeholder(msg: &str) -> (p: Payload)
    ensures
        p.icon is None && p.status is None && p.format is None,
        p.body matches Body::Lines(d) && d.lines@.len() == 2 && d.lines@[0]@ == "⚠ "@ + msg@
            && d.lines@[1]@ == "check [widget.options] or set GH_TOKEN"@,
{
    let mut first = String::from_str("⚠ ");
    first.append(msg);
    let second = String::from_str("check [widget.options] or set GH_TOKEN");
    payload(Body::Lines(LinesData { lines: vec![first, second] }))
}

/// `owner/name`.
#[derive(Debug, Clone, PartialEq, Eq)]
pub struct RepoSlug {
    pub owner: String,
    pub name: String,
}

/// The owner and name of `raw` when it is exactly two non-empty halves around one `/`.
pub open spec fn spec_parse_slug(raw: Seq<char>) -> Option<(Seq<char>, Seq<char>)> {
    match split_once(raw, '/') {
        Some((o, n)) => if o.len() == 0 || n.len() == 0 || n.contains('/') {
            None
        } else {
            Some((o, n))
        },
        None => None,
    }
}

/// `owner/name` of a slug.
pub open spec fn slug_path(s: RepoSlug) -> Seq<char> {
    s.owner@ + "/"@ + s.name@
}

/// Whether `r` is the parse of `raw`.
pub open spec fn slug_result(r: Option<RepoSlug>, spec: Option<(Seq<char>, Seq<char>)>) -> bool {
    match r {
        Some(s) => spec == Some((s.owner@, s.name@)),
        None => spec is None,
    }
}

impl RepoSlug {
    /// Splits `owner/name` at its single `/`; anything else is `None`.
    pub fn parse(raw: &str) -> (r: Option<Self>)
        ensures
            slug_result(r, spec_parse_slug(raw@)),
    {
        match split_once_char(raw, '/') {
            Some((owner, name)) => {
                if owner.unicode_len() == 0 || name.unicode_len() == 0 || contains_char(
                    name.as_str(),
                    '/',
                ) {
                    None
                } else {
                    Some(RepoSlug { owner, name })
                }
            },
            None => None,
        }
    }

    /// `owner/name`.
    pub fn as_path(&self) -> (r: String)
        ensures
            r@ == slug_path(*self),
    {
        let mut r = self.owner.clone();
        r.append("/");
        r.append(self.name.as_str());
        r
    }
}

/// The repository part of a GitHub remote URL (ssh, https or ssh-scheme), with
/// any `.git` suffix removed.
pub open spec fn spec_remote_rest(url: Seq<char>) -> Option<Seq<char>> {
    let rest = match strip_prefix(url, "git@github.com:"@) {
        Some(r) => Some(r),
        None => match strip_prefix(url, "https://github.com/"@) {
            Some(r) => Some(r),
            None => strip_prefix(url, "ssh://git@github.com/"@),
        },
    };
    match rest {
        Some(r) => match strip_suffix(r, ".git"@) {
            Some(t) => Some(t),
            None => Some(r),
        },
        None => None,
    }
}

pub open spec fn spec_slug_from_url(url: Seq<char>) -> Option<(Seq<char>, Seq<char>)> {
    match spec_remote_rest(url) {
        Some(rest) => spec_parse_slug(rest),
        None => None,
    }
}

fn remote_rest(url: &str) -> (r: Option<String>)
    ensures
        match r {
            Some(t) => spec_remote_rest(url@) == Some(t@),
            None => spec_remote_rest(url@) is None,
        },
{
    let rest = match strip_prefix_str(url, "git@github.com:") {
        Some(r) => r,
        None => match strip_prefix_str(url, "https://github.com/") {
            Some(r) => r,
            None => match strip_prefix_str(url, "ssh://git@github.com/") {
                Some(r) => r,
                None => return None,
            },
        },
    };
    match strip_suffix_str(rest.as_str(), ".git") {
        Some(t) => Some(t),
        None => Some(rest),
    }
}

/// Parses the github.com remote URL shapes; any other host is `None`.
pub fn slug_from_url(url: &str) -> (r: Option<RepoSlug>)
    ensures
        slug_result(r, spec_slug_from_url(url@)),
{
    match remote_rest(url) {
        Some(rest) => RepoSlug::parse(rest.as_str()),
        None => None,
    }
}

/// Printing and parsing a slug undo each other: `owner/name` with non-empty parts free
/// of `/` parses back to those parts, and text that parses prints back as itself.
pub proof fn lemma_slug_round_trip(owner: Seq<char>, name: Seq<char>, raw: Seq<char>)
    ensures
        owner.len() > 0 && name.len() > 0 && !owner.contains('/') && !name.contains('/')
            ==> spec_parse_slug(owner + "/"@ + name) == Some((owner, name)),
        spec_parse_slug(raw) matches Some(p) ==> p.0 + "/"@ + p.1 == raw,
{
    reveal_strlit("/");
    if owner.len() > 0 && name.len() > 0 && !owner.contains('/') && !name.contains('/') {
        let s = owner + "/"@ + name;
        let k = owner.len() as int;
        assert(s[k] == '/');
        assert(is_first_index(s, '/', k)) by {
            assert forall|j: int| 0 <= j < k implies s[j] != '/' by {
                assert(s[j] == owner[j]);
            }
        }
        assert(s.contains('/'));
        let i = choose|i: int| is_first_index(s, '/', i);
        assert(i == k) by {
            if i < k {
                assert(s[i] == owner[i]);
            }
        }
        assert(s.take(k) =~= owner);
        assert(s.skip(k + 1) =~= name);
    }
    if spec_parse_slug(raw) is Some {
        lemma_first_index_exists(raw, '/');
        let i = choose|i: int| is_first_index(raw, '/', i);
        assert(raw.take(i) + "/"@ + raw.skip(i + 1) =~= raw);
    }
}

/// The three GitHub remote prefixes: ssh, https and ssh-scheme.
pub open spec fn github_remote_prefix(k: int) -> Seq<char> {
    if k == 0 {
        "git@github.com:"@
    } else if k == 1 {
        "https://github.com/"@
    } else {
        "ssh://git@github.com/"@
    }
}

proof fn lemma_no_git_suffix(owner: Seq<char>, name: Seq<char>)
    requires
        name.len() > 0,
        !name.contains('/'),
        !has_suffix(name, ".git"@),
    ensures
        !has_suffix(owner + "/"@ + name, ".git"@),
{
    reveal_strlit("/");
    reveal_strlit(".git");
    let s = owner + "/"@ + name;
    if has_suffix(s, ".git"@) {
        if name.len() >= 4 {
            assert(s.skip(s.len() - 4) =~= name.skip(name.len() - 4));
        } else {
            let k = owner.len() as int;
            assert(s[k] == '/');
            let j = k - (s.len() - 4);
            assert(s.skip(s.len() - 4)[j] == s[k]);
            assert(".git"@[j] != '/');
        }
    }
}

/// A remote URL under any of the three GitHub prefixes, with or without `.git`, gives back
/// the owner and name it was built from (when both are non-empty and free of `/`, and the
/// name does not itself end in `.git`); a URL under none of the prefixes gives nothing.
pub proof fn lemma_slug_from_url_shapes(
    owner: Seq<char>,
    name: Seq<char>,
    k: int,
    with_git: bool,
    url: Seq<char>,
)
    requires
        0 <= k < 3,
    ensures
        owner.len() > 0 && name.len() > 0 && !owner.contains('/') && !name.contains('/')
            && !has_suffix(name, ".git"@) ==> spec_slug_from_url(
            github_remote_prefix(k) + owner + "/"@ + name + (if with_git {
                ".git"@
            } else {
                Seq::empty()
            }),
        ) == Some((owner, name)),
        !has_prefix(url, github_remote_prefix(0)) && !has_prefix(url, github_remote_prefix(1))
            && !has_prefix(url, github_remote_prefix(2)) ==> spec_slug_from_url(url) is None,
{
    reveal_strlit("git@github.com:");
    reveal_strlit("https://github.com/");
    reveal_strlit("ssh://git@github.com/");
    reveal_strlit(".git");
    if owner.len() > 0 && name.len() > 0 && !owner.contains('/') && !name.contains('/')
        && !has_suffix(name, ".git"@) {
        let pre = github_remote_prefix(k);
        let slug = owner + "/"@ + name;
        let tail: Seq<char> = if with_git { ".git"@ } else { Seq::empty() };
        let rest = slug + tail;
        let full = pre + owner + "/"@ + name + tail;
        assert(full =~= pre + rest);
        assert(full.take(pre.len() as int) =~= pre);
        assert(full.skip(pre.len() as int) =~= rest);
        if k == 1 {
            assert(full[0] == 'h');
            assert(full.take(15)[0] != "git@github.com:"@[0]);
        } else if k == 2 {
            assert(full[0] == 's');
            assert(full.take(15)[0] != "git@github.com:"@[0]);
            assert(full.take(19)[0] != "https://github.com/"@[0]);
        }
        assert(spec_remote_rest(full) == Some(slug)) by {
            if with_git {
                assert(rest.skip(rest.len() - 4) =~= ".git"@);
                assert(rest.take(rest.len() - 4) =~= slug);
            } else {
                assert(rest =~= slug);
                lemma_no_git_suffix(owner, name);
            }
        }
        lemma_slug_round_trip(owner, name, slug);
    }
}

/// The repository part of a cache key: the `repo` option as written, else the
/// `owner/name` of the working directory's GitHub remote, else empty.
pub open spec fn spec_repo_key(explicit: Option<Seq<char>>, remote_url: Option<Seq<char>>) -> Seq<char> {
    match explicit {
        Some(r) => r,
        None => match remote_url {
            Some(u) => match spec_slug_from_url(u) {
                Some(p) => p.0 + "/"@ + p.1,
                None => Seq::empty(),
            },
            None => Seq::empty(),
        },
    }
}

/// The repository part of a cache key.
pub fn repo_key(explicit: Option<&str>, remote_url: Option<&str>) -> (k: String)
    ensures
        k@ == spec_repo_key(opt_str_view(explicit), opt_str_view(remote_url)),
{
    match explicit {
        Some(r) => String::from_str(r),
        None => match remote_url {
            Some(u) => match slug_from_url(u) {
                Some(s) => s.as_path(),
                None => String::new(),
            },
            None => String::new(),
        },
    }
}

pub open spec fn invalid_repo_message(raw: Seq<char>) -> Seq<char> {
    "invalid repo option: "@ + debug_str(raw)
}

pub open spec fn no_repo_message() -> Seq<char> {
    "no repo: set `repo = \"owner/name\"` or run inside a git repo with a github remote"@
}

/// What `resolve_repo` answers.
pub open spec fn resolve_repo_ok(
    explicit: Option<Seq<char>>,
    remote_url: Option<Seq<char>>,
    r: Result<RepoSlug, FetchError>,
) -> bool {
    match explicit {
        Some(raw) => match spec_parse_slug(raw) {
            Some((o, n)) => r matches Ok(s) && s.owner@ == o && s.name@ == n,
            None => r matches Err(FetchError::Failed(m)) && m@ == invalid_repo_message(raw),
        },
        None => match remote_url {
            Some(u) => match spec_slug_from_url(u) {
                Some((o, n)) => r matches Ok(s) && s.owner@ == o && s.name@ == n,
                None => r matches Err(FetchError::Failed(m)) && m@ == no_repo_message(),
            },
            None => r matches Err(FetchError::Failed(m)) && m@ == no_repo_message(),
        },
    }
}

/// Repo for a repo-scope fetcher: the explicit option wins; otherwise the URL of
/// the current directory's preferred remote (found by the caller) is parsed.
pub fn resolve_repo(explicit: Option<&str>, remote_url: Option<&str>) -> (r: Result<
    RepoSlug,
    FetchError,
>)
    ensures
        resolve_repo_ok(opt_str_view(explicit), opt_str_view(remote_url), r),
{
    match explicit {
        Some(raw) => match RepoSlug::parse(raw) {
            Some(s) => Ok(s),
            None => {
                let mut m = String::from_str("invalid repo option: ");
                let q = debug_quote(raw);
                m.append(q.as_str());
                Err(FetchError::Failed(m))
            },
        },
        None => {
            let found = match remote_url {
                Some(u) => slug_from_url(u),
                None => None,
            };
            match found {
                Some(s) => Ok(s),
                None => Err(
                    FetchError::Failed(
                        String::from_str(
                            "no repo: set `repo = \"owner/name\"` or run inside a git repo with a github remote",
                        ),
                    ),
                ),
            }
        },
    }
}

} // verus!
