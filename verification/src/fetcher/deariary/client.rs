//! What the `deariary_*` fetchers share: the API entry, the public link of an entry, the
//! token resolution and the token-scoped cache partition, and the reading of the API's
//! rate-limit and error replies. The host `api.deariary.com` is fixed, so the bearer token
//! never leaves for another origin.

use vstd::prelude::*;
use crate::text::opt_str_view;
use vstd::string::*;

use crate::digest::{short_digest, short_hex_digest};
use crate::fetcher::FetchError;
use crate::text::{parse_u64, replace_char, replace_char_str, spec_parse_u64, trim, trim_str};

verus! {

/// Base of every API request.
pub const API_BASE: &'static str = "https://api.deariary.com/api/v1";

/// Page size asked of the list endpoint.
pub const MAX_LIST_LIMIT: u32 = 100;

/// Longest wait, in seconds, before the one retry after a rate-limit reply.
pub const RETRY_AFTER_CAP: u64 = 10;

/// One diary entry as the API returns it.
#[derive(Debug, Clone)]
pub struct ApiEntry {
    pub date: String,
    pub title: String,
    pub content: Option<String>,
    pub tags: Vec<String>,
    pub sources: Vec<String>,
    pub generated_at: Option<String>,
    pub word_count: Option<u32>,
}

/// `https://app.deariary.com/entries/YYYY/MM/DD` for an ISO date.
pub open spec fn spec_entry_url(date: Seq<char>) -> Seq<char> {
    "https://app.deariary.com/entries/"@ + replace_char(date, '-', '/')
}

/// Public web page of the entry on an ISO date (`YYYY-MM-DD`): the dashes become path
/// separators.
pub fn entry_url(date: &str) -> (s: String)
    ensures
        s@ == spec_entry_url(date@),
{
    let path = replace_char_str(date, '-', '/');
    let mut s = String::from_str("https://app.deariary.com/entries/");
    s.append(path.as_str());
    s
}

/// Opaque scope of a token: sixteen hex digits of its SHA-256, so cache keys tell accounts
/// apart without carrying the token.
pub fn token_scope(token: &str) -> (s: String)
    ensures
        s@ == short_digest(token@),
        s@.len() == 16,
        forall|k: int| 0 <= k < 16 ==> crate::digest::is_lower_hex(#[trigger] s@[k]),
{
    short_hex_digest(token)
}

/// The message when no token is configured.
pub open spec fn missing_token_message() -> Seq<char> {
    "deariary token missing: set options.token or DEARIARY_TOKEN"@
}

/// The trimmed text when it is not blank.
pub open spec fn non_blank(s: Option<Seq<char>>) -> Option<Seq<char>> {
    match s {
        Some(t) => if trim(t).len() > 0 {
            Some(trim(t))
        } else {
            None
        },
        None => None,
    }
}

/// The token to use: the configured one, else the `DEARIARY_TOKEN` environment value, each
/// trimmed and only when not blank.
pub open spec fn spec_resolve_token(config: Option<Seq<char>>, env: Option<Seq<char>>) -> Option<Seq<char>> {
    match non_blank(config) {
        Some(t) => Some(t),
        None => non_blank(env),
    }
}

fn non_blank_of(s: Option<&str>) -> (r: Option<String>)
    ensures
        match r {
            Some(t) => non_blank(opt_str_view(s)) == Some(t@),
            None => non_blank(opt_str_view(s)) is None,
        },
{
    match s {
        Some(x) => {
            let t = trim_str(x);
            if t.unicode_len() > 0 {
                Some(t)
            } else {
                None
            }
        },
        None => None,
    }
}

/// Resolves the bearer token from the `token` option and the `DEARIARY_TOKEN` environment
/// value (read by the caller); an error when neither holds a non-blank token.
pub fn resolve_token(config_token: Option<&str>, env_token: Option<&str>) -> (r: Result<String, FetchError>)
    ensures
        match spec_resolve_token(opt_str_view(config_token), opt_str_view(env_token)) {
            Some(t) => r matches Ok(s) && s@ == t,
            None => r matches Err(FetchError::Failed(m)) && m@ == missing_token_message(),
        },
{
    match non_blank_of(config_token) {
        Some(t) => Ok(t),
        None => match non_blank_of(env_token) {
            Some(t) => Ok(t),
            None => Err(
                FetchError::Failed(
                    String::from_str("deariary token missing: set options.token or DEARIARY_TOKEN"),
                ),
            ),
        },
    }
}

/// `scope|options`: the scope of the resolved token (of the empty text when none resolves)
/// and the serialized options.
pub open spec fn spec_cache_extra(
    config: Option<Seq<char>>,
    env: Option<Seq<char>>,
    options_text: Seq<char>,
) -> Seq<char> {
    let token = match spec_resolve_token(config, env) {
        Some(t) => t,
        None => Seq::empty(),
    };
    short_digest(token) + "|"@ + options_text
}

/// Cache partition of a deariary widget: the scope of the token it resolves to and its
/// options, so two accounts never share cached entries.
pub fn cache_extra(config_token: Option<&str>, env_token: Option<&str>, options_text: &str) -> (s: String)
    ensures
        s@ == spec_cache_extra(opt_str_view(config_token), opt_str_view(env_token), options_text@),
{
    let token = match resolve_token(config_token, env_token) {
        Ok(t) => t,
        Err(_) => String::new(),
    };
    let mut s = token_scope(token.as_str());
    s.append("|");
    s.append(options_text);
    s
}

/// Seconds to wait before retrying a rate-limited request: the `Retry-After` header's
/// whole seconds (1 when absent or unreadable), at most ten.
pub open spec fn spec_retry_wait(header: Option<Seq<char>>) -> u64 {
    let asked: u64 = match header {
        Some(h) => match spec_parse_u64(trim(h)) {
            Some(n) => n,
            None => 1,
        },
        None => 1,
    };
    if asked > 10 {
        10
    } else {
        asked
    }
}

/// Wait before the retry after a rate-limit reply, from the `Retry-After` header text.
pub fn retry_wait_seconds(header: Option<&str>) -> (s: u64)
    ensures
        s == spec_retry_wait(opt_str_view(header)),
{
    let asked: u64 = match header {
        Some(h) => {
            let t = trim_str(h);
            match parse_u64(t.as_str()) {
                Some(n) => n,
                None => 1,
            }
        },
        None => 1,
    };
    if asked > RETRY_AFTER_CAP {
        RETRY_AFTER_CAP
    } else {
        asked
    }
}

/// `deariary <status>: <message>` where the reply named a problem, else `deariary <status>`.
pub open spec fn spec_error_message(status: Seq<char>, detail: Option<Seq<char>>, title: Option<Seq<char>>) -> Seq<char> {
    match detail {
        Some(m) => "deariary "@ + status + ": "@ + m,
        None => match title {
            Some(m) => "deariary "@ + status + ": "@ + m,
            None => "deariary "@ + status,
        },
    }
}

/// Message of a failed reply: the problem document's `detail`, else its `title`, after
/// the status line.
pub fn error_message(status: &str, detail: Option<&str>, title: Option<&str>) -> (s: String)
    ensures
        s@ == spec_error_message(status@, opt_str_view(detail), opt_str_view(title)),
{
    let reported = match detail {
        Some(d) => Some(d),
        None => title,
    };
    let mut s = String::from_str("deariary ");
    s.append(status);
    match reported {
        Some(m) => {
            s.append(": ");
            s.append(m);
        },
        None => {},
    }
    s
}

/// What to do with a reply to an API request.
#[derive(Debug, Clone, Copy, PartialEq, Eq, Structural)]
pub enum ReplyStep {
    /// `404`: there is no such entry.
    NotFound,
    /// `429` on the first attempt: wait this many seconds, then send once more.
    Retry { wait_seconds: u64 },
    /// Anything else: read the body.
    ReadBody,
}

/// The step a reply calls for: a missing entry on 404, one retry on 429 after the
/// `Retry-After` wait (capped at ten seconds), the body otherwise.
pub open spec fn spec_reply_step(status: u16, attempt: u32, retry_after: Option<Seq<char>>) -> ReplyStep {
    if status == 404 {
        ReplyStep::NotFound
    } else if status == 429 && attempt == 0 {
        ReplyStep::Retry { wait_seconds: spec_retry_wait(retry_after) }
    } else {
        ReplyStep::ReadBody
    }
}

/// Decides what to do with a reply of status `status` to attempt `attempt` (0 first).
pub fn reply_step(status: u16, attempt: u32, retry_after: Option<&str>) -> (r: ReplyStep)
    ensures
        r == spec_reply_step(status, attempt, opt_str_view(retry_after)),
{
    if status == 404 {
        ReplyStep::NotFound
    } else if status == 429 && attempt == 0 {
        ReplyStep::Retry { wait_seconds: retry_wait_seconds(retry_after) }
    } else {
        ReplyStep::ReadBody
    }
}

/// A read reply succeeds on a 2xx status; otherwise it fails with the problem the reply
/// named.
pub fn body_result(status: u16, status_text: &str, detail: Option<&str>, title: Option<&str>) -> (r: Result<
    (),
    FetchError,
>)
    ensures
        200 <= status <= 299 ==> r is Ok,
        !(200 <= status <= 299) ==> (r matches Err(FetchError::Failed(m)) && m@ == spec_error_message(
            status_text@,
            opt_str_view(detail),
            opt_str_view(title),
        )),
{
    if 200 <= status && status <= 299 {
        Ok(())
    } else {
        Err(FetchError::Failed(error_message(status_text, detail, title)))
    }
}

} // verus!
