//! `git_worktrees` — the main worktree and every linked one, each with its checked-out
//! branch (none when detached) and path.

use vstd::prelude::*;
use vstd::string::*;

use crate::fetcher::{FetchContext, OptionSchema, Safety};
use crate::payload::{Body, EntriesData, Entry};
use crate::render::Shape;
use crate::samples;
use crate::text::opt_string_view;
use crate::text::views;

use super::{repo_cache_key, spec_repo_cache_key, text_block_body};

verus! {

/// The `git_worktrees` fetcher.
pub struct GitWorktrees;

/// A worktree as the repository reports it (`(main)` for the main one).
#[derive(Debug, Clone)]
pub struct WorktreeInfo {
    pub id: String,
    pub branch: Option<String>,
    pub path: String,
}

pub open spec fn spec_shapes() -> Seq<Shape> {
    seq![Shape::Entries, Shape::TextBlock]
}

impl GitWorktrees {
    /// Catalog name.
    pub fn name(&self) -> (r: &'static str)
        ensures
            r@ == "git_worktrees"@,
    {
        "git_worktrees"
    }

    /// Trust class.
    pub fn safety(&self) -> (r: Safety)
        ensures
            r == Safety::Safe,
    {
        Safety::Safe
    }

    /// One-paragraph catalog description.
    pub fn description(&self) -> (r: &'static str)
        ensures
            r@ == "Linked worktrees plus the main worktree, each with its checked-out branch and path. Useful when you juggle several feature branches in parallel checkouts."@,
    {
        "Linked worktrees plus the main worktree, each with its checked-out branch and path. Useful when you juggle several feature branches in parallel checkouts."
    }

    /// Shapes this fetcher can produce.
    pub fn shapes(&self) -> (r: Vec<Shape>)
        ensures
            r@ == spec_shapes(),
    {
        let r = vec![Shape::Entries, Shape::TextBlock];
        assert(r@ =~= spec_shapes());
        r
    }

    /// Shape used when the widget names none.
    pub fn default_shape(&self) -> (r: Shape)
        ensures
            r == Shape::Entries,
    {
        Shape::Entries
    }

    /// Documented options.
    pub fn option_schemas(&self) -> (r: Vec<OptionSchema>)
        ensures
            r@.len() == 0,
    {
        vec![

        ]
    }

}


impl GitWorktrees {
    /// Cache key for the repository rooted at `root`.
    pub fn cache_key(&self, ctx: &FetchContext, root: &str) -> (k: String)
        ensures
            k@ == spec_repo_cache_key("git_worktrees"@, root@, *ctx),
    {
        repo_cache_key("git_worktrees", root, ctx)
    }

    /// Canned body per supported shape.
    pub fn sample_body(&self, shape: Shape) -> (r: Option<Body>)
        ensures
            shape == Shape::Entries ==> (r matches Some(Body::Entries(d)) && d.items@.len() == 3),
            shape == Shape::TextBlock ==> (r matches Some(Body::TextBlock(d)) && d.lines@.len()
                == 3),
            !(shape == Shape::Entries || shape == Shape::TextBlock) ==> r is None,
    {
        match shape {
            Shape::Entries => Some(
                samples::entries(
                    &[("main", "/repo"), ("feat/foo", "/repo-feat"), ("hotfix", "/repo-hotfix")],
                ),
            ),
            Shape::TextBlock => Some(
                samples::text_block(
                    &[
                        "main           /repo",
                        "feat/foo       /repo-feat",
                        "hotfix         /repo-hotfix",
                    ],
                ),
            ),
            _ => None,
        }
    }
}

/// `<id> (<branch>) @ <path>`, or `<id> @ <path>` when detached.
pub open spec fn spec_format_line(wt: WorktreeInfo) -> Seq<char> {
    match wt.branch {
        Some(b) => wt.id@ + " ("@ + b@ + ") @ "@ + wt.path@,
        None => wt.id@ + " @ "@ + wt.path@,
    }
}

/// `<branch> @ <path>`, or just the path when detached.
pub open spec fn spec_format_value(branch: Option<String>, path: Seq<char>) -> Seq<char> {
    match branch {
        Some(b) => b@ + " @ "@ + path,
        None => path,
    }
}

/// One text line for a worktree.
pub fn format_line(wt: &WorktreeInfo) -> (s: String)
    ensures
        s@ == spec_format_line(*wt),
{
    let mut s = String::from_str(wt.id.as_str());
    match &wt.branch {
        Some(b) => {
            s.append(" (");
            s.append(b.as_str());
            s.append(") @ ");
        },
        None => s.append(" @ "),
    }
    s.append(wt.path.as_str());
    s
}

/// The entry value for a worktree.
pub fn format_value(branch: &Option<String>, path: &str) -> (s: String)
    ensures
        s@ == spec_format_value(*branch, path@),
{
    match branch {
        Some(b) => {
            let mut s = String::from_str(b.as_str());
            s.append(" @ ");
            s.append(path);
            s
        },
        None => String::from_str(path),
    }
}

/// What the worktrees render as: one line each for `TextBlock`, else entries keyed by id.
pub open spec fn worktrees_body_ok(list: Seq<WorktreeInfo>, shape: Shape, b: Body) -> bool {
    if shape == Shape::TextBlock {
        b matches Body::TextBlock(d) && views(d.lines@) == Seq::new(
            list.len(),
            |i: int| spec_format_line(list[i]),
        )
    } else {
        b matches Body::Entries(d) && d.items@.len() == list.len() && forall|i: int|
            0 <= i < list.len() ==> #[trigger] d.items@[i].key@ == list[i].id@ && opt_string_view(
                d.items@[i].value,
            ) == Some(spec_format_value(list[i].branch, list[i].path@)) && d.items@[i].status
                is None
    }
}

/// Renders the worktree list.
pub fn render_body(list: &Vec<WorktreeInfo>, shape: Shape) -> (b: Body)
    ensures
        worktrees_body_ok(list@, shape, b),
{
    let n = list.len();
    match shape {
        Shape::TextBlock => {
            let mut lines: Vec<String> = Vec::new();
            let mut i: usize = 0;
            while i < n
                invariant
                    n == list@.len(),
                    i <= n,
                    lines@.len() == i,
                    forall|k: int| 0 <= k < i ==> #[trigger] lines@[k]@ == spec_format_line(list@[k]),
                decreases n - i,
            {
                lines.push(format_line(&list[i]));
                i += 1;
            }
            assert(views(lines@) =~= Seq::new(list@.len(), |k: int| spec_format_line(list@[k])));
            text_block_body(lines)
        },
        _ => {
            let mut items: Vec<Entry> = Vec::new();
            let mut i: usize = 0;
            while i < n
                invariant
                    n == list@.len(),
                    i <= n,
                    items@.len() == i,
                    forall|k: int|
                        0 <= k < i ==> #[trigger] items@[k].key@ == list@[k].id@ && opt_string_view(
                            items@[k].value,
                        ) == Some(spec_format_value(list@[k].branch, list@[k].path@))
                            && items@[k].status is None,
                decreases n - i,
            {
                let e = Entry {
                    key: String::from_str(list[i].id.as_str()),
                    value: Some(format_value(&list[i].branch, list[i].path.as_str())),
                    status: None,
                };
                items.push(e);
                i += 1;
            }
            Body::Entries(EntriesData { items })
        },
    }
}

} // verus!
