//! `git_stash_count` — the number of entries in the stash reflog. A repository without a
//! stash counts zero.

use vstd::prelude::*;
use vstd::string::*;

use crate::fetcher::{FetchContext, OptionSchema, Safety};
use crate::payload::{BadgeData, Body, EntriesData, Entry, Status};
use crate::render::Shape;
use crate::samples;
use crate::text::opt_string_view;
use crate::text::{dec, u64_to_string};

use super::{repo_cache_key, spec_repo_cache_key, text_body};

verus! {

/// The `git_stash_count` fetcher.
pub struct GitStashCount;

pub open spec fn spec_shapes() -> Seq<Shape> {
    seq![Shape::Text, Shape::Entries, Shape::Badge]
}

impl GitStashCount {
    /// Catalog name.
    pub fn name(&self) -> (r: &'static str)
        ensures
            r@ == "git_stash_count"@,
    {
        "git_stash_count"
    }

    /// Trust class.
    pub fn safety(&self) -> (r: Safety)
        ensures
            r == Safety::Safe,
    {
        Safety::Safe
    }

    /// One-paragraph catalog description.
    pub fn description(&self) -> (r: &'static str)
        ensures
            r@ == "Number of entries in the stash reflog, as a quiet reminder of work parked aside. `Text` collapses to empty when there are zero stashes; `Entries` always reports the count; `Badge` shows the count as a pill (Ok at zero, Warn otherwise)."@,
    {
        "Number of entries in the stash reflog, as a quiet reminder of work parked aside. `Text` collapses to empty when there are zero stashes; `Entries` always reports the count; `Badge` shows the count as a pill (Ok at zero, Warn otherwise)."
    }

    /// Shapes this fetcher can produce.
    pub fn shapes(&self) -> (r: Vec<Shape>)
        ensures
            r@ == spec_shapes(),
    {
        let r = vec![Shape::Text, Shape::Entries, Shape::Badge];
        assert(r@ =~= spec_shapes());
        r
    }

    /// Shape used when the widget names none.
    pub fn default_shape(&self) -> (r: Shape)
        ensures
            r == Shape::Text,
    {
        Shape::Text
    }

    /// Documented options.
    pub fn option_schemas(&self) -> (r: Vec<OptionSchema>)
        ensures
            r@.len() == 0,
    {
        vec![

        ]
    }

}


impl GitStashCount {
    /// Cache key for the repository rooted at `root`.
    pub fn cache_key(&self, ctx: &FetchContext, root: &str) -> (k: String)
        ensures
            k@ == spec_repo_cache_key("git_stash_count"@, root@, *ctx),
    {
        repo_cache_key("git_stash_count", root, ctx)
    }

    /// Canned body per supported shape.
    pub fn sample_body(&self, shape: Shape) -> (r: Option<Body>)
        ensures
            shape == Shape::Text ==> (r matches Some(Body::Text(d)) && d.value@ == "3 stashes"@),
            shape == Shape::Badge ==> (r matches Some(Body::Badge(d)) && d.status == Status::Warn
                && d.label@ == "3 stashes"@),
            shape == Shape::Entries ==> (r matches Some(Body::Entries(d)) && d.items@.len() == 1),
            !(shape == Shape::Text || shape == Shape::Entries || shape == Shape::Badge) ==> r is None,
    {
        match shape {
            Shape::Text => Some(samples::text("3 stashes")),
            Shape::Entries => Some(samples::entries(&[("stashes", "3")])),
            Shape::Badge => Some(samples::badge(Status::Warn, "3 stashes")),
            _ => None,
        }
    }
}

/// `no stashes`, `1 stash`, or `<n> stashes`.
pub open spec fn spec_stash_label(count: nat) -> Seq<char> {
    if count == 0 {
        "no stashes"@
    } else if count == 1 {
        "1 stash"@
    } else {
        dec(count) + " stashes"@
    }
}

/// The count in words.
pub fn stash_label(count: usize) -> (s: String)
    ensures
        s@ == spec_stash_label(count as nat),
{
    if count == 0 {
        String::from_str("no stashes")
    } else if count == 1 {
        String::from_str("1 stash")
    } else {
        let mut s = u64_to_string(count as u64);
        s.append(" stashes");
        s
    }
}

/// What a stash count renders as: a `stashes` entry, a badge that warns from one stash
/// on, or text that stays empty at zero.
pub open spec fn stash_body_ok(count: nat, shape: Shape, b: Body) -> bool {
    match shape {
        Shape::Entries => b matches Body::Entries(d) && d.items@.len() == 1 && d.items@[0].key@
            == "stashes"@ && opt_string_view(d.items@[0].value) == Some(dec(count))
            && d.items@[0].status is None,
        Shape::Badge => b matches Body::Badge(d) && d.status == (if count == 0 {
            Status::Okay
        } else {
            Status::Warn
        }) && d.label@ == spec_stash_label(count),
        _ => b matches Body::Text(d) && d.value@ == (if count == 0 {
            Seq::empty()
        } else {
            spec_stash_label(count)
        }),
    }
}

/// Renders the stash count.
pub fn render_body(count: usize, shape: Shape) -> (b: Body)
    ensures
        stash_body_ok(count as nat, shape, b),
{
    match shape {
        Shape::Entries => {
            let e = Entry {
                key: String::from_str("stashes"),
                value: Some(u64_to_string(count as u64)),
                status: None,
            };
            assert(opt_string_view(e.value) == Some(dec(count as nat)));
            let items = vec![e];
            assert(items@[0] == e);
            Body::Entries(EntriesData { items })
        },
        Shape::Badge => Body::Badge(
            BadgeData {
                status: if count == 0 {
                    Status::Okay
                } else {
                    Status::Warn
                },
                label: stash_label(count),
            },
        ),
        _ => {
            if count == 0 {
                proof {
                    reveal_strlit("");
                    assert(""@ =~= Seq::<char>::empty());
                }
                text_body("")
            } else {
                let l = stash_label(count);
                text_body(l.as_str())
            }
        },
    }
}

} // verus!
