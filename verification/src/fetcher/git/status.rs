//! `git_status` — working-tree snapshot: branch, clean or dirty, and commits ahead of and
//! behind the upstream. A detached `HEAD` shows its short hash in place of the branch.

use vstd::prelude::*;
use vstd::string::*;

use crate::fetcher::{FetchContext, OptionSchema, Safety};
use crate::payload::{BadgeData, Body, EntriesData, Entry, Status};
use crate::render::Shape;
use crate::samples;
use crate::text::opt_string_view;
use crate::text::{dec, u64_to_string};

use super::{repo_cache_key, spec_repo_cache_key, text_body};

verus! {

/// The `git_status` fetcher.
pub struct GitStatus;

/// What the repository reports about the working tree.
#[derive(Debug, Clone)]
pub struct StatusInfo {
    pub branch: String,
    pub detached: bool,
    pub head_short: String,
    pub dirty: bool,
    pub ahead: Option<usize>,
    pub behind: Option<usize>,
}

pub open spec fn spec_shapes() -> Seq<Shape> {
    seq![Shape::Entries, Shape::Text, Shape::Badge]
}

impl GitStatus {
    /// Catalog name.
    pub fn name(&self) -> (r: &'static str)
        ensures
            r@ == "git_status"@,
    {
        "git_status"
    }

    /// Trust class.
    pub fn safety(&self) -> (r: Safety)
        ensures
            r == Safety::Safe,
    {
        Safety::Safe
    }

    /// One-paragraph catalog description.
    pub fn description(&self) -> (r: &'static str)
        ensures
            r@ == "Working-tree snapshot: current branch, clean/dirty flag, and ahead/behind counts vs upstream. Choose `Entries` for a key/value panel, `Text` for a one-liner, or `Badge` for a clean/dirty traffic light."@,
    {
        "Working-tree snapshot: current branch, clean/dirty flag, and ahead/behind counts vs upstream. Choose `Entries` for a key/value panel, `Text` for a one-liner, or `Badge` for a clean/dirty traffic light."
    }

    /// Shapes this fetcher can produce.
    pub fn shapes(&self) -> (r: Vec<Shape>)
        ensures
            r@ == spec_shapes(),
    {
        let r = vec![Shape::Entries, Shape::Text, Shape::Badge];
        assert(r@ =~= spec_shapes());
        r
    }

    /// Shape used when the widget names none.
    pub fn default_shape(&self) -> (r: Shape)
        ensures
            r == Shape::Entries,
    {
        Shape::Entries
    }

    /// Documented options.
    pub fn option_schemas(&self) -> (r: Vec<OptionSchema>)
        ensures
            r@.len() == 0,
    {
        vec![

        ]
    }

}


impl GitStatus {
    /// Cache key for the repository rooted at `root`.
    pub fn cache_key(&self, ctx: &FetchContext, root: &str) -> (k: String)
        ensures
            k@ == spec_repo_cache_key("git_status"@, root@, *ctx),
    {
        repo_cache_key("git_status", root, ctx)
    }

    /// Canned body per supported shape.
    pub fn sample_body(&self, shape: Shape) -> (r: Option<Body>)
        ensures
            shape == Shape::Entries ==> (r matches Some(Body::Entries(d)) && d.items@.len() == 4),
            shape == Shape::Text ==> (r matches Some(Body::Text(d)) && d.value@
                == "main  +2 −0  ◆3 ?1"@),
            shape == Shape::Badge ==> (r matches Some(Body::Badge(d)) && d.status == Status::Okay
                && d.label@ == "clean"@),
            !(shape == Shape::Entries || shape == Shape::Text || shape == Shape::Badge) ==> r is None,
    {
        match shape {
            Shape::Entries => Some(
                samples::entries(
                    &[("branch", "main"), ("ahead", "2"), ("modified", "3"), ("untracked", "1")],
                ),
            ),
            Shape::Text => Some(samples::text("main  +2 −0  ◆3 ?1")),
            Shape::Badge => Some(samples::badge(Status::Okay, "clean")),
            _ => None,
        }
    }
}

/// The branch label: `detached@<hash>` for a detached `HEAD`, else the branch name.
pub open spec fn spec_short_branch(info: StatusInfo) -> Seq<char> {
    if info.detached {
        "detached@"@ + info.head_short@
    } else {
        info.branch@
    }
}

/// The branch label.
pub fn short_branch(info: &StatusInfo) -> (s: String)
    ensures
        s@ == spec_short_branch(*info),
{
    if info.detached {
        let mut s = String::from_str("detached@");
        s.append(info.head_short.as_str());
        s
    } else {
        String::from_str(info.branch.as_str())
    }
}

/// `<branch>[ ↑a ↓b] · clean|dirty`; the arrows only when an upstream is known and
/// either count is non-zero.
pub open spec fn spec_format_line(info: StatusInfo) -> Seq<char> {
    let arrows = match (info.ahead, info.behind) {
        (Some(a), Some(b)) => if a > 0 || b > 0 {
            " ↑"@ + dec(a as nat) + " ↓"@ + dec(b as nat)
        } else {
            Seq::empty()
        },
        _ => Seq::empty(),
    };
    spec_short_branch(info) + arrows + if info.dirty {
        " · dirty"@
    } else {
        " · clean"@
    }
}

/// What the status line shows: it opens with the branch label and closes with
/// ` · dirty` or ` · clean` as the work tree is; when the upstream counts are known and
/// either is non-zero, ` ↑<ahead> ↓<behind>` follows the label right away, and otherwise
/// nothing stands between the label and the state.
pub proof fn lemma_line_shows_drift(info: StatusInfo)
    ensures
        spec_format_line(info).take(spec_short_branch(info).len() as int) == spec_short_branch(info),
        spec_format_line(info).len() >= spec_short_branch(info).len() + 8,
        spec_format_line(info).skip(spec_format_line(info).len() - 8) == (if info.dirty {
            " · dirty"@
        } else {
            " · clean"@
        }),
        info.ahead matches Some(a) ==> (info.behind matches Some(b) ==> (a > 0 || b > 0 ==> {
            let drift = " ↑"@ + dec(a as nat) + " ↓"@ + dec(b as nat);
            let l = spec_short_branch(info).len() as int;
            spec_format_line(info).subrange(l, l + drift.len()) == drift
        })),
        (info.ahead is None || info.behind is None || (info.ahead == Some(0usize) && info.behind
            == Some(0usize))) ==> spec_format_line(info).len() == spec_short_branch(info).len() + 8,
{
    reveal_strlit(" · dirty");
    reveal_strlit(" · clean");
    let line = spec_format_line(info);
    let br = spec_short_branch(info);
    let state = if info.dirty {
        " · dirty"@
    } else {
        " · clean"@
    };
    let arrows = match (info.ahead, info.behind) {
        (Some(a), Some(b)) => if a > 0 || b > 0 {
            " ↑"@ + dec(a as nat) + " ↓"@ + dec(b as nat)
        } else {
            Seq::empty()
        },
        _ => Seq::empty(),
    };
    assert(line =~= br + arrows + state);
    assert(line.take(br.len() as int) =~= br);
    assert(line.skip(line.len() - 8) =~= state);
    assert(line.subrange(br.len() as int, (br.len() + arrows.len()) as int) =~= arrows);
}

/// The one-line summary.
pub fn format_line(info: &StatusInfo) -> (s: String)
    ensures
        s@ == spec_format_line(*info),
{
    let mut out = short_branch(info);
    match (info.ahead, info.behind) {
        (Some(a), Some(b)) => {
            if a > 0 || b > 0 {
                out.append(" ↑");
                let x = u64_to_string(a as u64);
                out.append(x.as_str());
                out.append(" ↓");
                let y = u64_to_string(b as u64);
                out.append(y.as_str());
            }
        },
        _ => {},
    }
    if info.dirty {
        out.append(" · dirty");
    } else {
        out.append(" · clean");
    }
    out
}

/// An entry as plain values.
pub open spec fn entry_view(e: Entry) -> (Seq<char>, Option<Seq<char>>, Option<Status>) {
    (e.key@, opt_string_view(e.value), e.status)
}

/// Rows: `branch` (the short hash when detached), `state` with its tone, `head` when the
/// hash is known on a branch, and `ahead` / `behind` when an upstream is known.
pub open spec fn spec_status_entries(info: StatusInfo) -> Seq<
    (Seq<char>, Option<Seq<char>>, Option<Status>),
> {
    let state = if info.dirty {
        "dirty"@
    } else {
        "clean"@
    };
    let tone = if info.dirty {
        Status::Warn
    } else {
        Status::Okay
    };
    let first = seq![
        ("branch"@, Some(if info.detached { info.head_short@ } else { info.branch@ }), None),
        ("state"@, Some(state), Some(tone)),
    ];
    let head = if info.head_short@.len() > 0 && !info.detached {
        seq![("head"@, Some(info.head_short@), None)]
    } else {
        Seq::empty()
    };
    let counts = match (info.ahead, info.behind) {
        (Some(a), Some(b)) => seq![
            ("ahead"@, Some(dec(a as nat)), None),
            ("behind"@, Some(dec(b as nat)), None),
        ],
        _ => Seq::empty(),
    };
    first + head + counts
}

fn entry(key: &str, value: &str, status: Option<Status>) -> (e: Entry)
    ensures
        entry_view(e) == (key@, Some(value@), status),
{
    Entry { key: String::from_str(key), value: Some(String::from_str(value)), status }
}

/// The status rows.
pub fn build_entries(info: &StatusInfo) -> (items: Vec<Entry>)
    ensures
        items@.map_values(|e: Entry| entry_view(e)) == spec_status_entries(*info),
{
    let branch = entry(
        "branch",
        if info.detached {
            info.head_short.as_str()
        } else {
            info.branch.as_str()
        },
        None,
    );
    let state = entry(
        "state",
        if info.dirty {
            "dirty"
        } else {
            "clean"
        },
        Some(
            if info.dirty {
                Status::Warn
            } else {
                Status::Okay
            },
        ),
    );
    let mut items = vec![branch, state];
    let ghost mid = items@;
    if info.head_short.as_str().unicode_len() > 0 && !info.detached {
        items.push(entry("head", info.head_short.as_str(), None));
    }
    let ghost with_head = items@;
    match (info.ahead, info.behind) {
        (Some(a), Some(b)) => {
            let x = u64_to_string(a as u64);
            items.push(entry("ahead", x.as_str(), None));
            let y = u64_to_string(b as u64);
            items.push(entry("behind", y.as_str(), None));
        },
        _ => {},
    }
    assert(items@.map_values(|e: Entry| entry_view(e)) =~= spec_status_entries(*info));
    items
}

/// What the status renders as: a toned badge, the one-line summary, or the rows.
pub open spec fn status_body_ok(info: StatusInfo, shape: Shape, b: Body) -> bool {
    match shape {
        Shape::Badge => b matches Body::Badge(d) && d.status == (if info.dirty {
            Status::Warn
        } else {
            Status::Okay
        }) && d.label@ == spec_short_branch(info) + if info.dirty {
            " · dirty"@
        } else {
            " · clean"@
        },
        Shape::Text => b matches Body::Text(d) && d.value@ == spec_format_line(info),
        _ => b matches Body::Entries(d) && d.items@.map_values(|e: Entry| entry_view(e))
            == spec_status_entries(info),
    }
}

/// Renders the working-tree status.
pub fn render_body(info: &StatusInfo, shape: Shape) -> (b: Body)
    ensures
        status_body_ok(*info, shape, b),
{
    match shape {
        Shape::Badge => {
            let mut label = short_branch(info);
            if info.dirty {
                label.append(" · dirty");
            } else {
                label.append(" · clean");
            }
            Body::Badge(
                BadgeData {
                    status: if info.dirty {
                        Status::Warn
                    } else {
                        Status::Okay
                    },
                    label,
                },
            )
        },
        Shape::Text => {
            let l = format_line(info);
            text_body(l.as_str())
        },
        _ => Body::Entries(EntriesData { items: build_entries(info) }),
    }
}

} // verus!
