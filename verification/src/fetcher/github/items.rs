//! Shared issue / PR item model for the search and per-repo endpoints, and its
//! conversion into forge rows.

use vstd::prelude::*;
use vstd::string::*;

use crate::fetcher::forge_items::{
    bar_ok, entry_ok, event_ok, forge_body_ok, headline, image_item_ok, linked_line_ok,
    markdown_line, markdown_lines, render_forge_rows, ForgeRow,
};
use crate::payload::Body;
use crate::render::Shape;
use crate::text::{clone_opt, dec, strip_prefix, strip_prefix_str, u64_to_string};

use super::client::api_repos_prefix;
use super::common::{
    parse_timestamp, rfc3339_seconds, slug_path, slug_result, spec_parse_slug, RepoSlug,
};

verus! {

/// One issue or pull request as the API reports it.
#[derive(Debug, Clone, Default)]
pub struct IssueItem {
    pub title: String,
    pub number: u64,
    /// Only present on the search response.
    pub repository_url: String,
    pub updated_at: String,
    pub html_url: String,
    pub state: String,
    /// Comments count, the per-row activity weight.
    pub comments: u64,
    /// Author block (only the avatar URL is used).
    pub user: Option<GithubUserRef>,
}

/// Author reference of an item.
#[derive(Debug, Clone, Default)]
pub struct GithubUserRef {
    pub avatar_url: Option<String>,
}

impl IssueItem {
    /// A field-by-field copy.
    pub fn copy(&self) -> (r: Self)
        ensures
            r == *self,
    {
        IssueItem {
            title: self.title.clone(),
            number: self.number,
            repository_url: self.repository_url.clone(),
            updated_at: self.updated_at.clone(),
            html_url: self.html_url.clone(),
            state: self.state.clone(),
            comments: self.comments,
            user: match &self.user {
                Some(u) => Some(GithubUserRef { avatar_url: clone_opt(&u.avatar_url) }),
                None => None,
            },
        }
    }
}

/// The search endpoint's envelope.
#[derive(Debug, Clone, Default)]
pub struct SearchResult {
    pub items: Vec<IssueItem>,
}

pub open spec fn spec_repo_from_url(url: Seq<char>) -> Option<(Seq<char>, Seq<char>)> {
    match strip_prefix(url, "https://api.github.com/repos/"@) {
        Some(rest) => spec_parse_slug(rest),
        None => None,
    }
}

/// `owner/name` of an API repository URL.
pub fn repo_from_url(url: &str) -> (r: Option<RepoSlug>)
    ensures
        slug_result(r, spec_repo_from_url(url@)),
{
    match strip_prefix_str(url, api_repos_prefix()) {
        Some(rest) => RepoSlug::parse(rest.as_str()),
        None => None,
    }
}

/// Label of an item: `owner/name#N` (or `?#N` for an unparsable repository URL)
/// when the repo is included, `#N` otherwise.
pub open spec fn item_label(i: IssueItem, include_repo: bool) -> Seq<char> {
    if include_repo {
        (match spec_repo_from_url(i.repository_url@) {
            Some((o, n)) => o + "/"@ + n,
            None => "?"@,
        }) + "#"@ + dec(i.number as nat)
    } else {
        "#"@ + dec(i.number as nat)
    }
}

/// `r` is the forge row of item `i`.
pub open spec fn row_of_item(i: IssueItem, include_repo: bool, r: ForgeRow) -> bool {
    &&& r.label@ == item_label(i, include_repo)
    &&& r.title == i.title
    &&& r.url == (if i.html_url@.len() == 0 { None } else { Some(i.html_url) })
    &&& r.avatar_url == (match i.user {
        Some(u) => u.avatar_url,
        None => None,
    })
    &&& r.avatar_path is None
    &&& r.updated_at_unix == (match rfc3339_seconds(i.updated_at@) {
        Some(s) => s,
        None => 0,
    })
    &&& r.activity_count == i.comments
}

/// `rows` are the forge rows of `items`, in order.
pub open spec fn rows_of_items(items: Seq<IssueItem>, include_repo: bool, rows: Seq<ForgeRow>) -> bool {
    rows.len() == items.len() && forall|k: int|
        0 <= k < items.len() ==> #[trigger] row_of_item(items[k], include_repo, rows[k])
}

/// The forge row of one item.
pub fn to_forge_row(i: &IssueItem, include_repo: bool) -> (r: ForgeRow)
    ensures
        row_of_item(*i, include_repo, r),
{
    let mut label = String::new();
    if include_repo {
        match repo_from_url(i.repository_url.as_str()) {
            Some(s) => {
                let p = s.as_path();
                label.append(p.as_str());
            },
            None => {
                label.append("?");
            },
        }
    }
    label.append("#");
    let n = u64_to_string(i.number);
    label.append(n.as_str());
    let url = if i.html_url.unicode_len() == 0 {
        None
    } else {
        Some(i.html_url.clone())
    };
    let avatar_url = match &i.user {
        Some(u) => u.avatar_url.clone(),
        None => None,
    };
    ForgeRow {
        label,
        title: i.title.clone(),
        url,
        avatar_url,
        avatar_path: None,
        updated_at_unix: parse_timestamp(i.updated_at.as_str()),
        activity_count: i.comments,
    }
}

/// Forge rows of every item, in order.
pub fn to_forge_rows(items: &[IssueItem], include_repo: bool) -> (rows: Vec<ForgeRow>)
    ensures
        rows_of_items(items@, include_repo, rows@),
{
    let mut rows: Vec<ForgeRow> = Vec::new();
    let mut k: usize = 0;
    while k < items.len()
        invariant
            k <= items@.len(),
            rows@.len() == k,
            forall|j: int| 0 <= j < k ==> #[trigger] row_of_item(items@[j], include_repo, rows@[j]),
        decreases items@.len() - k,
    {
        rows.push(to_forge_row(&items[k], include_repo));
        k = k + 1;
    }
    rows
}

/// Renders items through the shared row renderer. `Badge` and
/// `ImageLinkedList` need preprocessing this path cannot do and are excluded.
pub fn render_items(items: &[IssueItem], shape: Shape, include_repo: bool) -> (b: Body)
    requires
        shape != Shape::Badge,
        shape != Shape::ImageLinkedList,
    ensures
        exists|rows: Seq<ForgeRow>|
            rows_of_items(items@, include_repo, rows) && forge_body_ok(rows, shape, b),
        forall|rows: Seq<ForgeRow>|
            rows_of_items(items@, include_repo, rows) ==> #[trigger] forge_body_ok(rows, shape, b),
{
    let rows = to_forge_rows(items, include_repo);
    let b = render_forge_rows(rows.as_slice(), shape);
    assert(rows_of_items(items@, include_repo, rows@) && forge_body_ok(rows@, shape, b));
    assert forall|other: Seq<ForgeRow>|
        rows_of_items(items@, include_repo, other) implies #[trigger] forge_body_ok(other, shape, b) by {
        lemma_render_items_is_render_rows(items@, include_repo, shape, rows@, other, b);
    }
    b
}

/// Two rows that render alike: the same label text, title, link, thumbnail, time and count.
pub open spec fn rows_alike(a: ForgeRow, b: ForgeRow) -> bool {
    &&& a.label@ == b.label@
    &&& a.title == b.title
    &&& a.url == b.url
    &&& a.avatar_path == b.avatar_path
    &&& a.updated_at_unix == b.updated_at_unix
    &&& a.activity_count == b.activity_count
}

proof fn lemma_rows_agree(
    items: Seq<IssueItem>,
    include_repo: bool,
    rows: Seq<ForgeRow>,
    other: Seq<ForgeRow>,
    k: int,
)
    requires
        rows_of_items(items, include_repo, rows),
        rows_of_items(items, include_repo, other),
        0 <= k < rows.len(),
    ensures
        rows_alike(rows[k], other[k]),
        headline(rows[k]) == headline(other[k]),
        markdown_line(rows[k]) == markdown_line(other[k]),
{
    assert(row_of_item(items[k], include_repo, rows[k]));
    assert(row_of_item(items[k], include_repo, other[k]));
}

/// Rendering items is rendering their forge rows: a body that the row renderer gives for
/// some forge rows of the items is the body it gives for any forge rows of them, in
/// particular for those `to_forge_rows` returns.
#[verifier::spinoff_prover]
pub proof fn lemma_render_items_is_render_rows(
    items: Seq<IssueItem>,
    include_repo: bool,
    shape: Shape,
    rows: Seq<ForgeRow>,
    other: Seq<ForgeRow>,
    b: Body,
)
    requires
        rows_of_items(items, include_repo, rows),
        rows_of_items(items, include_repo, other),
        forge_body_ok(rows, shape, b),
    ensures
        forge_body_ok(other, shape, b),
{
    match shape {
        Shape::Text => {
            if rows.len() > 0 {
                lemma_rows_agree(items, include_repo, rows, other, 0);
            }
        },
        Shape::MarkdownTextBlock => {
            assert(markdown_lines(rows) =~= markdown_lines(other)) by {
                assert forall|k: int| 0 <= k < rows.len() implies #[trigger] markdown_lines(rows)[k]
                    == markdown_lines(other)[k] by {
                    lemma_rows_agree(items, include_repo, rows, other, k);
                }
            }
        },
        Shape::LinkedTextBlock => {
            let d = b->LinkedTextBlock_0;
            assert forall|i: int| 0 <= i < other.len() implies #[trigger] linked_line_ok(
                d.items@[i],
                other[i],
            ) by {
                lemma_rows_agree(items, include_repo, rows, other, i);
                assert(linked_line_ok(d.items@[i], rows[i]));
            }
        },
        Shape::ImageLinkedList => {
            let d = b->ImageLinkedList_0;
            assert forall|i: int| 0 <= i < other.len() implies #[trigger] image_item_ok(
                d.items@[i],
                other[i],
            ) by {
                lemma_rows_agree(items, include_repo, rows, other, i);
                assert(image_item_ok(d.items@[i], rows[i]));
            }
        },
        Shape::Entries => {
            let d = b->Entries_0;
            assert forall|i: int| 0 <= i < other.len() implies #[trigger] entry_ok(d.items@[i], other[i]) by {
                lemma_rows_agree(items, include_repo, rows, other, i);
                assert(entry_ok(d.items@[i], rows[i]));
            }
        },
        Shape::Bars => {
            let d = b->Bars_0;
            assert forall|i: int| 0 <= i < other.len() implies #[trigger] bar_ok(d.bars@[i], other[i]) by {
                lemma_rows_agree(items, include_repo, rows, other, i);
                assert(bar_ok(d.bars@[i], rows[i]));
            }
        },
        Shape::Timeline => {
            let d = b->Timeline_0;
            assert forall|i: int| 0 <= i < other.len() implies #[trigger] event_ok(d.events@[i], other[i]) by {
                lemma_rows_agree(items, include_repo, rows, other, i);
                assert(event_ok(d.events@[i], rows[i]));
            }
        },
        _ => {
            let d = b->TextBlock_0;
            assert forall|i: int| 0 <= i < other.len() implies #[trigger] d.lines@[i]@ == headline(
                other[i],
            ) by {
                lemma_rows_agree(items, include_repo, rows, other, i);
                assert(d.lines@[i]@ == headline(rows[i]));
            }
        },
    }
}

/// `r` is the sample row built from the tuple `t`.
pub open spec fn sample_row_ok(t: (&str, &str, Option<&str>, u64, i64), r: ForgeRow) -> bool {
    &&& r.label@ == t.0@
    &&& r.title@ == t.1@
    &&& match t.2 {
        Some(u) => r.url matches Some(v) && v@ == u@,
        None => r.url is None,
    }
    &&& r.avatar_url is None
    &&& r.avatar_path is None
    &&& r.updated_at_unix == t.4
    &&& r.activity_count == t.3
}

/// Builds rows from `(label, title, url, activity, timestamp)` tuples.
pub fn sample_rows(rows: &[(&str, &str, Option<&str>, u64, i64)]) -> (out: Vec<ForgeRow>)
    ensures
        out@.len() == rows@.len(),
        forall|k: int| 0 <= k < rows@.len() ==> #[trigger] sample_row_ok(rows@[k], out@[k]),
{
    let mut out: Vec<ForgeRow> = Vec::new();
    let mut k: usize = 0;
    while k < rows.len()
        invariant
            k <= rows@.len(),
            out@.len() == k,
            forall|j: int| 0 <= j < k ==> #[trigger] sample_row_ok(rows@[j], out@[j]),
        decreases rows@.len() - k,
    {
        let t = rows[k];
        let url = match t.2 {
            Some(u) => Some(String::from_str(u)),
            None => None,
        };
        out.push(
            ForgeRow {
                label: String::from_str(t.0),
                title: String::from_str(t.1),
                url,
                avatar_url: None,
                avatar_path: None,
                updated_at_unix: t.4,
                activity_count: t.3,
            },
        );
        k = k + 1;
    }
    out
}

} // verus!
