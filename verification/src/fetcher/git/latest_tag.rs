//! `git_latest_tag` — the tag whose commit is newest by committer time (the first such tag
//! when several share the time). `Text` shows the tag name; `Entries` adds the short commit
//! hash and the commit's date.

use vstd::prelude::*;
use vstd::string::*;

use crate::fetcher::{FetchContext, OptionSchema, Safety};
use crate::payload::{Body, EntriesData, Entry};
use crate::render::Shape;
use crate::samples;
use crate::text::opt_string_view;

use super::{repo_cache_key, spec_repo_cache_key, text_body};

verus! {

/// The `git_latest_tag` fetcher.
pub struct GitLatestTag;

/// A tag as the repository walk reports it: names, the commit's local date already
/// rendered, and the commit time that decides which tag is latest.
#[derive(Debug, Clone)]
pub struct TagInfo {
    pub name: String,
    pub short_hash: String,
    pub iso_date: String,
    pub time: i64,
}

pub open spec fn spec_shapes() -> Seq<Shape> {
    seq![Shape::Text, Shape::Entries]
}

impl GitLatestTag {
    /// Catalog name.
    pub fn name(&self) -> (r: &'static str)
        ensures
            r@ == "git_latest_tag"@,
    {
        "git_latest_tag"
    }

    /// Trust class.
    pub fn safety(&self) -> (r: Safety)
        ensures
            r == Safety::Safe,
    {
        Safety::Safe
    }

    /// One-paragraph catalog description.
    pub fn description(&self) -> (r: &'static str)
        ensures
            r@ == "Most recent git tag by committer time, suitable as a \"latest release\" line. `Text` shows just the tag name; `Entries` adds the short commit hash and ISO date."@,
    {
        "Most recent git tag by committer time, suitable as a \"latest release\" line. `Text` shows just the tag name; `Entries` adds the short commit hash and ISO date."
    }

    /// Shapes this fetcher can produce.
    pub fn shapes(&self) -> (r: Vec<Shape>)
        ensures
            r@ == spec_shapes(),
    {
        let r = vec![Shape::Text, Shape::Entries];
        assert(r@ =~= spec_shapes());
        r
    }

    /// Shape used when the widget names none.
    pub fn default_shape(&self) -> (r: Shape)
        ensures
            r == Shape::Text,
    {
        Shape::Text
    }

    /// Documented options.
    pub fn option_schemas(&self) -> (r: Vec<OptionSchema>)
        ensures
            r@.len() == 0,
    {
        vec![

        ]
    }

}


impl GitLatestTag {
    /// Cache key for the repository rooted at `root`.
    pub fn cache_key(&self, ctx: &FetchContext, root: &str) -> (k: String)
        ensures
            k@ == spec_repo_cache_key("git_latest_tag"@, root@, *ctx),
    {
        repo_cache_key("git_latest_tag", root, ctx)
    }

    /// Canned body per supported shape.
    pub fn sample_body(&self, shape: Shape) -> (r: Option<Body>)
        ensures
            shape == Shape::Text ==> (r matches Some(Body::Text(d)) && d.value@ == "v1.2.3"@),
            shape == Shape::Entries ==> (r matches Some(Body::Entries(d)) && d.items@.len() == 3),
            !(shape == Shape::Text || shape == Shape::Entries) ==> r is None,
    {
        match shape {
            Shape::Text => Some(samples::text("v1.2.3")),
            Shape::Entries => Some(
                samples::entries(
                    &[("tag", "v1.2.3"), ("commit", "a1b2c3d"), ("date", "2026-04-14")],
                ),
            ),
            _ => None,
        }
    }
}

/// Index of the latest tag: the first one with the largest commit time.
pub fn latest_tag(tags: &Vec<TagInfo>) -> (r: Option<usize>)
    ensures
        match r {
            Some(i) => i < tags@.len() && (forall|j: int| 0 <= j < tags@.len() ==> tags@[j].time
                <= tags@[i as int].time) && (forall|j: int| 0 <= j < i ==> tags@[j].time
                < tags@[i as int].time),
            None => tags@.len() == 0,
        },
{
    if tags.len() == 0 {
        return None;
    }
    let mut best: usize = 0;
    let mut i: usize = 1;
    while i < tags.len()
        invariant
            1 <= i <= tags@.len(),
            best < i,
            forall|j: int| 0 <= j < i ==> tags@[j].time <= tags@[best as int].time,
            forall|j: int| 0 <= j < best ==> tags@[j].time < tags@[best as int].time,
        decreases tags@.len() - i,
    {
        if tags[i].time > tags[best].time {
            best = i;
        }
        i += 1;
    }
    Some(best)
}

pub open spec fn entry_is(e: Entry, key: Seq<char>, value: Seq<char>) -> bool {
    e.key@ == key && opt_string_view(e.value) == Some(value) && e.status is None
}

fn entry(key: &str, value: &str) -> (e: Entry)
    ensures
        entry_is(e, key@, value@),
{
    Entry { key: String::from_str(key), value: Some(String::from_str(value)), status: None }
}

/// What the latest tag renders as: `tag`, `commit` and `date` rows for `Entries`, the tag
/// name otherwise, and empty text without tags.
pub open spec fn tag_body_ok(tag: Option<TagInfo>, shape: Shape, b: Body) -> bool {
    match tag {
        None => b matches Body::Text(d) && d.value@.len() == 0,
        Some(t) => if shape == Shape::Entries {
            b matches Body::Entries(d) && d.items@.len() == 3 && entry_is(
                d.items@[0],
                "tag"@,
                t.name@,
            ) && entry_is(d.items@[1], "commit"@, t.short_hash@) && entry_is(
                d.items@[2],
                "date"@,
                t.iso_date@,
            )
        } else {
            b matches Body::Text(d) && d.value@ == t.name@
        },
    }
}

/// Renders the latest tag, if any.
pub fn render_body(tag: Option<&TagInfo>, shape: Shape) -> (b: Body)
    ensures
        tag_body_ok(
            match tag {
                Some(t) => Some(*t),
                None => None,
            },
            shape,
            b,
        ),
{
    match tag {
        None => {
            proof {
                reveal_strlit("");
            }
            text_body("")
        },
        Some(t) => match shape {
            Shape::Entries => {
                let a = entry("tag", t.name.as_str());
                let c = entry("commit", t.short_hash.as_str());
                let d = entry("date", t.iso_date.as_str());
                let items = vec![a, c, d];
                assert(items@[0] == a && items@[1] == c && items@[2] == d);
                Body::Entries(EntriesData { items })
            },
            _ => text_body(t.name.as_str()),
        },
    }
}

} // verus!
