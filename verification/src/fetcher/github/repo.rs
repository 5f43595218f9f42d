//! `github_repo` — identity of the current directory's repository.

use vstd::prelude::*;
use vstd::string::*;

use crate::fetcher::{keyed, spec_keyed, FetchContext, OptionSchema, Safety};
use crate::payload::{
    spec_shape_of, Body, EntriesData, Entry, Payload, TextBlockData, TextData,
};
use crate::render::{shape_in, Shape};
use crate::text::{opt_str_view, opt_string_view};
use crate::text::{join, join_strings, views};

use super::common::{slug_path, RepoSlug};

verus! {

/// The `github_repo` fetcher.
pub struct GithubRepo;

pub open spec fn spec_shapes() -> Seq<Shape> {
    seq![Shape::Entries, Shape::TextBlock, Shape::Text]
}

impl GithubRepo {
    /// Catalog name.
    pub fn name(&self) -> (r: &'static str)
        ensures
            r@ == "github_repo"@,
    {
        "github_repo"
    }

    /// Trust class.
    pub fn safety(&self) -> (r: Safety)
        ensures
            r == Safety::Safe,
    {
        Safety::Safe
    }

    /// One-paragraph catalog description.
    pub fn description(&self) -> (r: &'static str)
        ensures
            r@ == "Repo identity for the current directory: slug, description, and SPDX license. Use `github_repo_stars` instead for the social counters (stars, forks, watchers)."@,
    {
        "Repo identity for the current directory: slug, description, and SPDX license. Use `github_repo_stars` instead for the social counters (stars, forks, watchers)."
    }

    /// Shapes this fetcher can produce.
    pub fn shapes(&self) -> (r: Vec<Shape>)
        ensures
            r@ == spec_shapes(),
    {
        let r = vec![Shape::Entries, Shape::TextBlock, Shape::Text];
        assert(r@ =~= spec_shapes());
        r
    }

    /// Shape used when the widget names none.
    pub fn default_shape(&self) -> (r: Shape)
        ensures
            r == Shape::Entries,
    {
        Shape::Entries
    }

    /// Documented options.
    pub fn option_schemas(&self) -> (r: Vec<OptionSchema>)
        ensures
            r@.len() == 0,
    {
        vec![

        ]
    }

}

/// The identity fields of a repository, each optional.
#[derive(Debug, Default, Clone)]
pub struct Metadata {
    pub slug: Option<String>,
    pub description: Option<String>,
    pub license: Option<String>,
}

/// The present `(key, value)` pairs, in slug / description / license order.
pub open spec fn present_pairs(m: Metadata) -> Seq<(Seq<char>, Seq<char>)> {
    (match m.slug {
        Some(v) => seq![("slug"@, v@)],
        None => Seq::empty(),
    }) + (match m.description {
        Some(v) => seq![("description"@, v@)],
        None => Seq::empty(),
    }) + (match m.license {
        Some(v) => seq![("license"@, v@)],
        None => Seq::empty(),
    })
}

/// The present values, in order.
pub open spec fn present_values(m: Metadata) -> Seq<Seq<char>> {
    present_pairs(m).map_values(|p: (Seq<char>, Seq<char>)| p.1)
}

/// `items` are the entries of the present fields.
pub open spec fn entries_of(m: Metadata, items: Seq<Entry>) -> bool {
    items.len() == present_pairs(m).len() && forall|i: int|
        0 <= i < items.len() ==> #[trigger] items[i].key@ == present_pairs(m)[i].0 && opt_string_view(
            items[i].value,
        ) == Some(present_pairs(m)[i].1) && items[i].status is None
}

fn push_present(out: &mut Vec<String>, v: &Option<String>)
    ensures
        views(final(out)@) == views(old(out)@) + (match *v {
            Some(x) => seq![x@],
            None => Seq::empty(),
        }),
{
    match v {
        Some(x) => {
            out.push(x.clone());
            assert(views(final(out)@) =~= views(old(out)@) + seq![x@]);
        },
        None => {
            assert(views(final(out)@) =~= views(old(out)@) + Seq::<Seq<char>>::empty());
        },
    }
}

/// `key` with `Some(value)` and no status.
pub fn entry(key: &str, value: &str) -> (e: Entry)
    ensures
        e.key@ == key@,
        opt_string_view(e.value) == Some(value@),
        e.status is None,
{
    Entry { key: String::from_str(key), value: Some(String::from_str(value)), status: None }
}

/// Wraps a body in an undecorated payload.
pub fn payload(body: Body) -> (p: Payload)
    ensures
        p.icon is None,
        p.status is None,
        p.format is None,
        p.body == body,
{
    crate::payload::payload(body)
}

impl Metadata {
    /// Entries for the present fields.
    pub fn as_entries(&self) -> (r: Vec<Entry>)
        ensures
            entries_of(*self, r@),
    {
        let mut r: Vec<Entry> = Vec::new();
        let ghost p = present_pairs(*self);
        match &self.slug {
            Some(v) => r.push(entry("slug", v.as_str())),
            None => {},
        }
        match &self.description {
            Some(v) => r.push(entry("description", v.as_str())),
            None => {},
        }
        match &self.license {
            Some(v) => r.push(entry("license", v.as_str())),
            None => {},
        }
        r
    }

    /// The present values, in order.
    pub fn as_lines(&self) -> (r: Vec<String>)
        ensures
            views(r@) == present_values(*self),
    {
        let mut r: Vec<String> = Vec::new();
        push_present(&mut r, &self.slug);
        push_present(&mut r, &self.description);
        push_present(&mut r, &self.license);
        assert(views(r@) =~= present_values(*self));
        r
    }

    /// The present values joined with ` · `.
    pub fn as_text(&self) -> (r: String)
        ensures
            r@ == join(present_values(*self), " · "@),
    {
        let lines = self.as_lines();
        join_strings(&lines, " · ")
    }
}

/// Metadata of a fetched repository: its slug, a non-empty description and the
/// license's SPDX id.
pub fn metadata_for(slug: &RepoSlug, description: Option<String>, license_spdx: Option<String>) -> (m: Metadata)
    ensures
        opt_string_view(m.slug) == Some(slug_path(*slug)),
        m.description == (match description {
            Some(d) => if d@.len() == 0 {
                None
            } else {
                Some(d)
            },
            None => None,
        }),
        m.license == license_spdx,
{
    let description = match description {
        Some(d) => if d.unicode_len() == 0 {
            None
        } else {
            Some(d)
        },
        None => None,
    };
    Metadata { slug: Some(slug.as_path()), description, license: license_spdx }
}

/// Body for the metadata in the requested shape (default `Entries`).
pub fn render_body(meta: &Metadata, shape: Option<Shape>) -> (b: Body)
    ensures
        shape == Some(Shape::Text) ==> (b matches Body::Text(d) && d.value@ == join(
            present_values(*meta),
            " · "@,
        )),
        shape == Some(Shape::TextBlock) ==> (b matches Body::TextBlock(d) && views(d.lines@)
            == present_values(*meta)),
        shape != Some(Shape::Text) && shape != Some(Shape::TextBlock) ==> (b matches Body::Entries(d)
            && entries_of(*meta, d.items@)),
{
    match shape {
        Some(Shape::Text) => Body::Text(TextData { value: meta.as_text() }),
        Some(Shape::TextBlock) => Body::TextBlock(TextBlockData { lines: meta.as_lines() }),
        _ => {
            let items = meta.as_entries();
            Body::Entries(EntriesData { items })
        },
    }
}

impl GithubRepo {
    /// Cache key scoped to the working directory (its path as text): the repository is
    /// the one of the directory the widget runs in, whatever the context asks.
    pub fn cache_key(&self, _ctx: &FetchContext, cwd: &str) -> (k: String)
        ensures
            k@ == spec_keyed("github_repo"@, cwd@),
    {
        keyed("github_repo", cwd)
    }

    /// Catalog sample for a supported shape.
    pub fn sample_body(&self, shape: Shape) -> (r: Option<Body>)
        ensures
            r is Some <==> shape_in(shape, spec_shapes()),
            r matches Some(b) ==> spec_shape_of(b) == shape,
    {
        assert(spec_shapes()[0] == Shape::Entries);
        assert(spec_shapes()[1] == Shape::TextBlock);
        assert(spec_shapes()[2] == Shape::Text);
        match shape {
            Shape::Entries => Some(
                Body::Entries(
                    EntriesData {
                        items: vec![
                            entry("slug", "unhappychoice/splashboard"),
                            entry("description", "terminal splash renderer"),
                            entry("license", "ISC"),
                        ],
                    },
                ),
            ),
            Shape::TextBlock => Some(
                Body::TextBlock(
                    TextBlockData {
                        lines: vec![
                            String::from_str("unhappychoice/splashboard"),
                            String::from_str("terminal splash renderer"),
                            String::from_str("ISC"),
                        ],
                    },
                ),
            ),
            Shape::Text => Some(
                Body::Text(
                    TextData {
                        value: String::from_str(
                            "unhappychoice/splashboard · terminal splash renderer · ISC",
                        ),
                    },
                ),
            ),
            _ => None,
        }
    }
}

} // verus!
