//! `github_avatar` — a user's avatar downloaded into the local cache.

use vstd::prelude::*;
use vstd::string::*;

use crate::fetcher::FetchContext;
use super::common::{cache_key as keyed_cache_key, spec_cache_key};

use crate::fetcher::{OptionSchema, Safety};
use crate::payload::{Body, Payload, TextData};
use crate::render::Shape;
use crate::text::opt_str_view;
use crate::text::{dec, u64_to_string};

verus! {

/// The `github_avatar` fetcher.
pub struct GithubAvatar;

/// Widget options.
#[derive(Debug, Default, Clone)]
pub struct Options {
    pub user: Option<String>,
    pub size: Option<u32>,
}

pub open spec fn spec_shapes() -> Seq<Shape> {
    seq![Shape::Image]
}

impl GithubAvatar {
    /// Cache key: the context plus the serialized options.
    pub fn cache_key(&self, ctx: &FetchContext, options_text: &str) -> (k: String)
        ensures
            k@ == spec_cache_key("github_avatar"@, *ctx, options_text@),
    {
        keyed_cache_key("github_avatar", ctx, options_text)
    }
}

impl GithubAvatar {
    /// Catalog name.
    pub fn name(&self) -> (r: &'static str)
        ensures
            r@ == "github_avatar"@,
    {
        "github_avatar"
    }

    /// Trust class.
    pub fn safety(&self) -> (r: Safety)
        ensures
            r == Safety::Safe,
    {
        Safety::Safe
    }

    /// One-paragraph catalog description.
    pub fn description(&self) -> (r: &'static str)
        ensures
            r@ == "The avatar image of a GitHub user, downloaded into the local cache and drawn as an image."@,
    {
        "The avatar image of a GitHub user, downloaded into the local cache and drawn as an image."
    }

    /// Shapes this fetcher can produce.
    pub fn shapes(&self) -> (r: Vec<Shape>)
        ensures
            r@ == spec_shapes(),
    {
        let r = vec![Shape::Image];
        assert(r@ =~= spec_shapes());
        r
    }

    /// Shape used when the widget names none.
    pub fn default_shape(&self) -> (r: Shape)
        ensures
            r == Shape::Image,
    {
        Shape::Image
    }

    /// Documented options.
    pub fn option_schemas(&self) -> (r: Vec<OptionSchema>)
        ensures
            r@.len() == 2,
            r@[0].name@ == "user"@,
            r@[0].required == false,
            opt_str_view(r@[0].default) == Some("$GITHUB_USER env var"@),
            r@[1].name@ == "size"@,
            r@[1].required == false,
            opt_str_view(r@[1].default) == Some("200"@),
    {
        vec![
            OptionSchema {
                name: "user",
                type_hint: "string (github login)",
                required: false,
                default: Some("$GITHUB_USER env var"),
                description: "GitHub login to fetch the avatar for. Falls back to the `GITHUB_USER` env var.",
            },
            OptionSchema {
                name: "size",
                type_hint: "integer (px)",
                required: false,
                default: Some("200"),
                description: "Requested avatar edge size in pixels. GitHub serves a square image of this size.",
            },
        ]
    }

}

impl GithubAvatar {
    /// There is no sample avatar.
    pub fn sample_body(&self, shape: Shape) -> (r: Option<Body>)
        ensures
            r is None,
    {
        None
    }
}

pub open spec fn missing_user_message() -> Seq<char> {
    "set `user = \"<login>\"` or the GITHUB_USER env var"@
}

/// The explicit login, else a non-empty `GITHUB_USER`, else an explanation.
pub fn resolve_user(explicit: Option<&str>, env_user: Option<&str>) -> (r: Result<String, String>)
    ensures
        match explicit {
            Some(u) if u@.len() > 0 => r matches Ok(v) && v@ == u@,
            _ => match env_user {
                Some(u) if u@.len() > 0 => r matches Ok(v) && v@ == u@,
                _ => r matches Err(m) && m@ == missing_user_message(),
            },
        },
{
    match explicit {
        Some(u) if u.unicode_len() > 0 => return Ok(String::from_str(u)),
        _ => {},
    }
    match env_user {
        Some(u) if u.unicode_len() > 0 => Ok(String::from_str(u)),
        _ => Err(String::from_str("set `user = \"<login>\"` or the GITHUB_USER env var")),
    }
}

/// Requested edge size: the option, else 200 pixels.
pub fn size_of(opts: &Options) -> (r: u32)
    ensures
        r == match opts.size {
            Some(s) => s,
            None => 200,
        },
{
    match opts.size {
        Some(s) => s,
        None => 200,
    }
}

/// `https://github.com/USER.png?size=N`.
pub fn avatar_url(user: &str, size: u32) -> (r: String)
    ensures
        r@ == "https://github.com"@ + "/"@ + user@ + ".png?size="@ + dec(size as nat),
{
    let mut r = String::from_str("https://github.com");
    r.append("/");
    r.append(user);
    r.append(".png?size=");
    let n = u64_to_string(size as u64);
    r.append(n.as_str());
    r
}

/// Cache file name `USER-N.png`.
pub fn file_name(user: &str, size: u32) -> (r: String)
    ensures
        r@ == user@ + "-"@ + dec(size as nat) + ".png"@,
{
    let mut r = String::from_str(user);
    r.append("-");
    let n = u64_to_string(size as u64);
    r.append(n.as_str());
    r.append(".png");
    r
}

/// Wraps a body in an undecorated payload.
pub fn payload(body: Body) -> (p: Payload)
    ensures
        p.icon is None,
        p.status is None,
        p.format is None,
        p.body == body,
{
    crate::payload::payload(body)
}

/// One-line warning payload.
pub fn placeholder(msg: &str) -> (p: Payload)
    ensures
        p.icon is None && p.status is None && p.format is None,
        p.body matches Body::Text(d) && d.value@ == "⚠ "@ + msg@,
{
    let mut v = String::from_str("⚠ ");
    v.append(msg);
    payload(Body::Text(TextData { value: v }))
}

} // verus!
