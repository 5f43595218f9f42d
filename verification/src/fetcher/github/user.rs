//! `github_user` — profile data of a GitHub user.

use vstd::prelude::*;
use vstd::string::*;

use crate::fetcher::FetchContext;
use super::common::{cache_key as keyed_cache_key, spec_cache_key};

use crate::fetcher::{OptionSchema, Safety};
use crate::payload::{spec_shape_of, Body, EntriesData, Entry, TextBlockData, TextData};
use crate::render::{shape_in, Shape};
use crate::samples;
use crate::text::{opt_str_view, opt_string_view};
use crate::text::{byte_prefix, byte_prefix_str, dec, join, join_strings, u64_to_string, views};

verus! {

/// The `github_user` fetcher.
pub struct GithubUser;

/// Widget options.
#[derive(Debug, Default, Clone)]
pub struct Options {
    pub user: Option<String>,
}

/// Profile fields of a user.
#[derive(Debug, Clone, Default)]
pub struct UserInfo {
    pub login: String,
    pub name: Option<String>,
    pub bio: Option<String>,
    pub location: Option<String>,
    pub company: Option<String>,
    pub created_at: Option<String>,
    pub followers: u64,
    pub following: u64,
    pub public_repos: u64,
}

pub open spec fn spec_shapes() -> Seq<Shape> {
    seq![Shape::TextBlock, Shape::Text, Shape::Entries]
}

impl GithubUser {
    /// Cache key: the context plus the profile's login.
    pub fn cache_key(&self, ctx: &FetchContext, user: &str) -> (k: String)
        ensures
            k@ == spec_cache_key("github_user"@, *ctx, user@),
    {
        keyed_cache_key("github_user", ctx, user)
    }
}

impl GithubUser {
    /// Catalog name.
    pub fn name(&self) -> (r: &'static str)
        ensures
            r@ == "github_user"@,
    {
        "github_user"
    }

    /// Trust class.
    pub fn safety(&self) -> (r: Safety)
        ensures
            r == Safety::Safe,
    {
        Safety::Safe
    }

    /// One-paragraph catalog description.
    pub fn description(&self) -> (r: &'static str)
        ensures
            r@ == "GitHub profile data for a user (display name, bio, location, join year, follower counts), aimed at the hero / subtitle band of a home preset. Pair with `github_avatar` for the matching image."@,
    {
        "GitHub profile data for a user (display name, bio, location, join year, follower counts), aimed at the hero / subtitle band of a home preset. Pair with `github_avatar` for the matching image."
    }

    /// Shapes this fetcher can produce.
    pub fn shapes(&self) -> (r: Vec<Shape>)
        ensures
            r@ == spec_shapes(),
    {
        let r = vec![Shape::TextBlock, Shape::Text, Shape::Entries];
        assert(r@ =~= spec_shapes());
        r
    }

    /// Shape used when the widget names none.
    pub fn default_shape(&self) -> (r: Shape)
        ensures
            r == Shape::TextBlock,
    {
        Shape::TextBlock
    }

    /// Documented options.
    pub fn option_schemas(&self) -> (r: Vec<OptionSchema>)
        ensures
            r@.len() == 1,
            r@[0].name@ == "user"@,
            r@[0].required == false,
            opt_str_view(r@[0].default) == Some("authenticated token user"@),
    {
        vec![
            OptionSchema {
                name: "user",
                type_hint: "string (github login)",
                required: false,
                default: Some("authenticated token user"),
                description: "GitHub login to fetch. Falls back to the `GITHUB_USER` env var, then to the login that owns `GH_TOKEN` / `GITHUB_TOKEN`.",
            },
        ]
    }

}

/// The value when present and non-empty.
pub open spec fn spec_nonempty(s: Option<String>) -> Option<Seq<char>> {
    match s {
        Some(v) => if v@.len() > 0 {
            Some(v@)
        } else {
            None
        },
        None => None,
    }
}

/// A one-element sequence for a present value, empty otherwise.
pub open spec fn opt_seq(v: Option<Seq<char>>) -> Seq<Seq<char>> {
    match v {
        Some(x) => seq![x],
        None => Seq::empty(),
    }
}

/// The value when present and non-empty.
pub fn nonempty(s: &Option<String>) -> (r: Option<&String>)
    ensures
        match r {
            Some(v) => spec_nonempty(*s) == Some(v@),
            None => spec_nonempty(*s) is None,
        },
{
    match s {
        Some(v) => if v.unicode_len() > 0 {
            Some(v)
        } else {
            None
        },
        None => None,
    }
}

/// The first four bytes of the creation timestamp (the year).
pub open spec fn spec_join_year(created_at: Option<String>) -> Option<Seq<char>> {
    match created_at {
        Some(c) => byte_prefix(c@, 4),
        None => None,
    }
}

/// Year the account was created: the leading four bytes of its timestamp.
pub fn join_year(created_at: &Option<String>) -> (r: Option<String>)
    ensures
        opt_string_view(r) == spec_join_year(*created_at),
{
    match created_at {
        Some(c) => byte_prefix_str(c.as_str(), 4),
        None => None,
    }
}

fn push_nonempty(out: &mut Vec<String>, s: &Option<String>)
    ensures
        views(final(out)@) == views(old(out)@) + opt_seq(spec_nonempty(*s)),
{
    match nonempty(s) {
        Some(v) => {
            out.push(v.clone());
            assert(views(final(out)@) =~= views(old(out)@) + seq![v@]);
        },
        None => {
            assert(views(final(out)@) =~= views(old(out)@) + Seq::<Seq<char>>::empty());
        },
    }
}

fn at_login(info: &UserInfo) -> (r: String)
    ensures
        r@ == "@"@ + info.login@,
{
    let mut r = String::from_str("@");
    r.append(info.login.as_str());
    r
}

/// `@login`, then location and company when set, joined with ` · `.
pub open spec fn spec_one_liner(info: UserInfo) -> Seq<char> {
    join(
        seq!["@"@ + info.login@] + opt_seq(spec_nonempty(info.location)) + opt_seq(
            spec_nonempty(info.company),
        ),
        " · "@,
    )
}

/// One-line summary of the profile.
pub fn one_liner(info: &UserInfo) -> (r: String)
    ensures
        r@ == spec_one_liner(*info),
{
    let mut parts: Vec<String> = Vec::new();
    parts.push(at_login(info));
    push_nonempty(&mut parts, &info.location);
    push_nonempty(&mut parts, &info.company);
    assert(views(parts@) =~= seq!["@"@ + info.login@] + opt_seq(spec_nonempty(info.location))
        + opt_seq(spec_nonempty(info.company)));
    join_strings(&parts, " · ")
}

/// Location and `member since YEAR`, the parts that share the last line.
pub open spec fn spec_tail(info: UserInfo) -> Seq<Seq<char>> {
    opt_seq(spec_nonempty(info.location)) + opt_seq(
        match spec_join_year(info.created_at) {
            Some(y) => Some("member since "@ + y),
            None => None,
        },
    )
}

/// `@login`, name, bio, then location and join year on one line, skipping what is unset.
pub open spec fn spec_text_block_lines(info: UserInfo) -> Seq<Seq<char>> {
    seq!["@"@ + info.login@] + opt_seq(spec_nonempty(info.name)) + opt_seq(spec_nonempty(info.bio))
        + (if spec_tail(info).len() > 0 {
        seq![join(spec_tail(info), " · "@)]
    } else {
        Seq::empty()
    })
}

/// The lines of the text-block profile.
pub fn text_block_lines(info: &UserInfo) -> (r: Vec<String>)
    ensures
        views(r@) == spec_text_block_lines(*info),
{
    let mut lines: Vec<String> = Vec::new();
    lines.push(at_login(info));
    push_nonempty(&mut lines, &info.name);
    push_nonempty(&mut lines, &info.bio);
    let mut tail: Vec<String> = Vec::new();
    push_nonempty(&mut tail, &info.location);
    match join_year(&info.created_at) {
        Some(y) => {
            let mut s = String::from_str("member since ");
            s.append(y.as_str());
            tail.push(s);
        },
        None => {},
    }
    assert(views(tail@) =~= spec_tail(*info));
    if tail.len() > 0 {
        let ghost before = views(lines@);
        lines.push(join_strings(&tail, " · "));
        assert(views(lines@) =~= before + seq![join(spec_tail(*info), " · "@)]);
    }
    assert(views(lines@) =~= spec_text_block_lines(*info));
    lines
}

/// `key` with `Some(value)` and no status.
pub fn entry(key: &str, value: String) -> (e: Entry)
    ensures
        e.key@ == key@,
        e.value == Some(value),
        e.status is None,
{
    Entry { key: String::from_str(key), value: Some(value), status: None }
}

fn nonempty_or_empty(s: &Option<String>) -> (r: String)
    ensures
        r@ == match spec_nonempty(*s) {
            Some(v) => v,
            None => Seq::empty(),
        },
{
    match nonempty(s) {
        Some(v) => v.clone(),
        None => String::new(),
    }
}

/// The eight profile entries, empty strings standing in for unset fields.
pub open spec fn entries_ok(info: UserInfo, r: Seq<Entry>) -> bool {
    let or_empty = |v: Option<Seq<char>>| match v {
        Some(x) => x,
        None => Seq::<char>::empty(),
    };
    &&& r.len() == 8
    &&& r[0].key@ == "name"@ && opt_string_view(r[0].value) == Some(or_empty(spec_nonempty(info.name)))
    &&& r[1].key@ == "bio"@ && opt_string_view(r[1].value) == Some(or_empty(spec_nonempty(info.bio)))
    &&& r[2].key@ == "location"@ && opt_string_view(r[2].value) == Some(
        or_empty(spec_nonempty(info.location)),
    )
    &&& r[3].key@ == "company"@ && opt_string_view(r[3].value) == Some(
        or_empty(spec_nonempty(info.company)),
    )
    &&& r[4].key@ == "member_since"@ && opt_string_view(r[4].value) == Some(
        or_empty(spec_join_year(info.created_at)),
    )
    &&& r[5].key@ == "followers"@ && opt_string_view(r[5].value) == Some(dec(info.followers as nat))
    &&& r[6].key@ == "following"@ && opt_string_view(r[6].value) == Some(dec(info.following as nat))
    &&& r[7].key@ == "public_repos"@ && opt_string_view(r[7].value) == Some(
        dec(info.public_repos as nat),
    )
}

/// The entries view of the profile.
pub fn entries(info: &UserInfo) -> (r: Vec<Entry>)
    ensures
        entries_ok(*info, r@),
{
    let year = match join_year(&info.created_at) {
        Some(y) => y,
        None => String::new(),
    };
    let e0 = entry("name", nonempty_or_empty(&info.name));
    let e1 = entry("bio", nonempty_or_empty(&info.bio));
    let e2 = entry("location", nonempty_or_empty(&info.location));
    let e3 = entry("company", nonempty_or_empty(&info.company));
    let e4 = entry("member_since", year);
    let e5 = entry("followers", u64_to_string(info.followers));
    let e6 = entry("following", u64_to_string(info.following));
    let e7 = entry("public_repos", u64_to_string(info.public_repos));
    let r = vec![e0, e1, e2, e3, e4, e5, e6, e7];
    assert(r@[0] == e0 && r@[1] == e1 && r@[2] == e2 && r@[3] == e3);
    assert(r@[4] == e4 && r@[5] == e5 && r@[6] == e6 && r@[7] == e7);
    r
}

/// The user part of a cache key: the `user` option as written, else `GITHUB_USER`,
/// else empty.
pub open spec fn spec_user_key(explicit: Option<Seq<char>>, env_user: Option<Seq<char>>) -> Seq<char> {
    match explicit {
        Some(u) => u,
        None => match env_user {
            Some(e) => e,
            None => Seq::empty(),
        },
    }
}

/// The user part of a cache key.
pub fn user_key(explicit: Option<&str>, env_user: Option<&str>) -> (k: String)
    ensures
        k@ == spec_user_key(opt_str_view(explicit), opt_str_view(env_user)),
{
    match explicit {
        Some(u) => String::from_str(u),
        None => match env_user {
            Some(e) => String::from_str(e),
            None => String::new(),
        },
    }
}

/// The explicit login, else a non-empty `GITHUB_USER`; `None` leaves the
/// caller to ask the API for the token's own login.
pub fn preferred_user(explicit: Option<&str>, env_user: Option<&str>) -> (r: Option<String>)
    ensures
        opt_string_view(r) == (match explicit {
            Some(u) if u@.len() > 0 => Some(u@),
            _ => match env_user {
                Some(u) if u@.len() > 0 => Some(u@),
                _ => None,
            },
        }),
{
    match explicit {
        Some(u) if u.unicode_len() > 0 => return Some(String::from_str(u)),
        _ => {},
    }
    match env_user {
        Some(u) if u.unicode_len() > 0 => Some(String::from_str(u)),
        _ => None,
    }
}

/// Profile endpoint of a login.
pub fn request_path(user: &str) -> (r: String)
    ensures
        r@ == "/users/"@ + user@,
{
    let mut r = String::from_str("/users/");
    r.append(user);
    r
}

/// Body for the profile in the requested shape (default `TextBlock`).
pub fn render_body(info: &UserInfo, shape: Option<Shape>) -> (b: Body)
    ensures
        shape == Some(Shape::Text) ==> (b matches Body::Text(d) && d.value@ == spec_one_liner(*info)),
        shape == Some(Shape::Entries) ==> (b matches Body::Entries(d) && entries_ok(*info, d.items@)),
        shape != Some(Shape::Text) && shape != Some(Shape::Entries) ==> (b matches Body::TextBlock(d)
            && views(d.lines@) == spec_text_block_lines(*info)),
{
    match shape {
        Some(Shape::Text) => Body::Text(TextData { value: one_liner(info) }),
        Some(Shape::Entries) => Body::Entries(EntriesData { items: entries(info) }),
        _ => Body::TextBlock(TextBlockData { lines: text_block_lines(info) }),
    }
}

impl GithubUser {
    /// Catalog sample for a supported shape.
    pub fn sample_body(&self, shape: Shape) -> (r: Option<Body>)
        ensures
            r is Some <==> shape_in(shape, spec_shapes()),
            r matches Some(b) ==> spec_shape_of(b) == shape,
    {
        assert(spec_shapes()[0] == Shape::TextBlock);
        assert(spec_shapes()[1] == Shape::Text);
        assert(spec_shapes()[2] == Shape::Entries);
        match shape {
            Shape::Text => Some(samples::text("@unhappychoice · Tokyo, Japan")),
            Shape::TextBlock => Some(
                samples::text_block(
                    &[
                        "Yuji Ueki",
                        "Terminal splash renderer maintainer",
                        "Tokyo, Japan · member since 2013",
                    ],
                ),
            ),
            Shape::Entries => Some(
                samples::entries(
                    &[
                        ("name", "Yuji Ueki"),
                        ("bio", "Terminal splash renderer maintainer"),
                        ("location", "Tokyo, Japan"),
                        ("company", ""),
                        ("member_since", "2013"),
                        ("followers", "420"),
                        ("following", "69"),
                        ("public_repos", "48"),
                    ],
                ),
            ),
            _ => None,
        }
    }
}

} // verus!
