//! `git_repo_name` — the repository name as one line for a hero header: the name part of
//! the `origin` remote (or the first remote) when it is a GitHub URL, else the working
//! directory's name, else `project`.

use vstd::prelude::*;
use crate::text::opt_str_view;
use vstd::string::*;

use crate::fetcher::{FetchContext, OptionSchema, Safety};
use crate::payload::{Body, TextData};
use crate::render::Shape;
use crate::text::str_eq;

use super::super::github::common::{slug_from_url, spec_slug_from_url};
use super::{repo_cache_key, spec_repo_cache_key};

verus! {

/// The `git_repo_name` fetcher.
pub struct GitRepoName;

pub open spec fn spec_shapes() -> Seq<Shape> {
    seq![Shape::Text]
}

impl GitRepoName {
    /// Catalog name.
    pub fn name(&self) -> (r: &'static str)
        ensures
            r@ == "git_repo_name"@,
    {
        "git_repo_name"
    }

    /// Trust class.
    pub fn safety(&self) -> (r: Safety)
        ensures
            r == Safety::Safe,
    {
        Safety::Safe
    }

    /// One-paragraph catalog description.
    pub fn description(&self) -> (r: &'static str)
        ensures
            r@ == "Repository name as a single line, suitable for a hero header. Derived from the `origin` remote (parsed as `owner/name`); falls back to the working directory's basename when no remote is configured."@,
    {
        "Repository name as a single line, suitable for a hero header. Derived from the `origin` remote (parsed as `owner/name`); falls back to the working directory's basename when no remote is configured."
    }

    /// Shapes this fetcher can produce.
    pub fn shapes(&self) -> (r: Vec<Shape>)
        ensures
            r@ == spec_shapes(),
    {
        let r = vec![Shape::Text];
        assert(r@ =~= spec_shapes());
        r
    }

    /// Shape used when the widget names none.
    pub fn default_shape(&self) -> (r: Shape)
        ensures
            r == Shape::Text,
    {
        Shape::Text
    }

    /// Documented options.
    pub fn option_schemas(&self) -> (r: Vec<OptionSchema>)
        ensures
            r@.len() == 0,
    {
        vec![

        ]
    }

}


impl GitRepoName {
    /// Cache key for the repository rooted at `root`.
    pub fn cache_key(&self, ctx: &FetchContext, root: &str) -> (k: String)
        ensures
            k@ == spec_repo_cache_key("git_repo_name"@, root@, *ctx),
    {
        repo_cache_key("git_repo_name", root, ctx)
    }

    /// The canned body, whatever the shape.
    pub fn sample_body(&self, shape: Shape) -> (r: Option<Body>)
        ensures
            r matches Some(Body::Text(d)) && d.value@ == "splashboard"@,
    {
        Some(Body::Text(TextData { value: String::from_str("splashboard") }))
    }
}

/// Picks the remote whose URL names the repository.
pub fn preferred_remote(names: &Vec<String>) -> (r: Option<usize>)
    ensures
        match r {
            Some(i) => i < names@.len() && (names@[i as int]@ == "origin"@ && forall|j: int|
                0 <= j < i ==> names@[j]@ != "origin"@) || (i == 0 && forall|j: int|
                0 <= j < names@.len() ==> names@[j]@ != "origin"@),
            None => names@.len() == 0,
        },
{
    let mut i: usize = 0;
    while i < names.len()
        invariant
            i <= names@.len(),
            forall|j: int| 0 <= j < i ==> names@[j]@ != "origin"@,
        decreases names@.len() - i,
    {
        if str_eq(names[i].as_str(), "origin") {
            return Some(i);
        }
        i += 1;
    }
    if names.len() > 0 {
        Some(0)
    } else {
        None
    }
}

/// The header text: the repository name from the remote URL when it is a GitHub URL,
/// else the directory name, else `project`.
pub open spec fn spec_display_name(remote_url: Option<Seq<char>>, dir_name: Option<Seq<char>>) -> Seq<char> {
    let from_remote = match remote_url {
        Some(u) => spec_slug_from_url(u),
        None => None,
    };
    match from_remote {
        Some(slug) => slug.1,
        None => match dir_name {
            Some(d) => d,
            None => "project"@,
        },
    }
}

/// Name for the header, from the preferred remote's URL and the directory name.
pub fn display_name(remote_url: Option<&str>, dir_name: Option<&str>) -> (s: String)
    ensures
        s@ == spec_display_name(opt_str_view(remote_url), opt_str_view(dir_name)),
{
    let slug = match remote_url {
        Some(u) => slug_from_url(u),
        None => None,
    };
    match slug {
        Some(s) => s.name,
        None => match dir_name {
            Some(d) => String::from_str(d),
            None => String::from_str("project"),
        },
    }
}

} // verus!
