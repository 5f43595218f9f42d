//! `deal_steam_daily` — Steam's daily / weekend / midweek deal feed. The discount comes
//! from the entry title (`Daily Deal - The Beast Inside, 25% Off`); titles of another shape
//! still render, without a discount.

use vstd::prelude::*;
use vstd::string::*;

use crate::fetcher::github::common::{cache_key as keyed_cache_key, spec_cache_key};
use crate::fetcher::{spec_limit, limit_or, FetchContext, OptionSchema, Safety};
use crate::payload::{Body, Status};
use crate::render::Shape;
use crate::samples;
use crate::text::{opt_str_view, opt_string_view};
use crate::text::{parse_u64, spec_parse_u64, trim, trim_str};

use super::common::{DealRow, MAX_ROWS};
use crate::fetcher::feed::{link_for, spec_link, spec_thumbnail, thumbnail_url_for, FeedItem};
use crate::text::{
    chars_at, chars_between, chars_of, collapse_whitespace, is_decimal, is_decimal_char, join,
    range_contains, skip_ws_at, skip_ws_from, text_at, words,
};

verus! {

/// The `deal_steam_daily` fetcher.
pub struct SteamDailyFetcher;

/// The feed.
pub const FEED_URL: &'static str = "https://store.steampowered.com/feeds/daily_deals.xml";

/// Widget options.
#[derive(Debug, Default, Clone)]
pub struct Options {
    pub count: Option<u32>,
}

pub open spec fn spec_shapes() -> Seq<Shape> {
    seq![Shape::LinkedTextBlock, Shape::TextBlock, Shape::MarkdownTextBlock, Shape::Text, Shape::Entries, Shape::Bars, Shape::ImageLinkedList, Shape::Badge, Shape::Timeline]
}

impl SteamDailyFetcher {
    /// Catalog name.
    pub fn name(&self) -> (r: &'static str)
        ensures
            r@ == "deal_steam_daily"@,
    {
        "deal_steam_daily"
    }

    /// Trust class.
    pub fn safety(&self) -> (r: Safety)
        ensures
            r == Safety::Safe,
    {
        Safety::Safe
    }

    /// One-paragraph catalog description.
    pub fn description(&self) -> (r: &'static str)
        ensures
            r@ == "Steam's official daily deals RSS feed — currently-running individual game discounts curated by Valve. Each entry parses into `[Steam] <Game>  <N>% off`. Complements `deal_games` (CheapShark) which spans every store; this one mirrors Steam's storefront priority order."@,
    {
        "Steam's official daily deals RSS feed — currently-running individual game discounts curated by Valve. Each entry parses into `[Steam] <Game>  <N>% off`. Complements `deal_games` (CheapShark) which spans every store; this one mirrors Steam's storefront priority order."
    }

    /// Shapes this fetcher can produce.
    pub fn shapes(&self) -> (r: Vec<Shape>)
        ensures
            r@ == spec_shapes(),
    {
        let r = vec![Shape::LinkedTextBlock, Shape::TextBlock, Shape::MarkdownTextBlock, Shape::Text, Shape::Entries, Shape::Bars, Shape::ImageLinkedList, Shape::Badge, Shape::Timeline];
        assert(r@ =~= spec_shapes());
        r
    }

    /// Shape used when the widget names none.
    pub fn default_shape(&self) -> (r: Shape)
        ensures
            r == Shape::LinkedTextBlock,
    {
        Shape::LinkedTextBlock
    }

    /// Seconds between background refreshes.
    pub fn refresh_interval(&self) -> (r: u64)
        ensures
            r == 3600,
    {
        3600
    }

    /// Documented options.
    pub fn option_schemas(&self) -> (r: Vec<OptionSchema>)
        ensures
            r@.len() == 1,
            r@[0].name@ == "count"@,
            r@[0].required == false,
            opt_str_view(r@[0].default) == Some("10"@),
    {
        vec![
            OptionSchema {
                name: "count",
                type_hint: "integer (1..=20)",
                required: false,
                default: Some("10"),
                description: "Maximum number of deals to display.",
            },
        ]
    }

}


/// Deals shown: the configured count (default 10) within 1..=20.
pub fn deal_count(opts: &Options) -> (n: usize)
    ensures
        n == spec_limit(opts.count, 10, 1, MAX_ROWS as u32),
{
    limit_or(opts.count, 10, 1, MAX_ROWS as u32) as usize
}

/// An ASCII letter.
pub open spec fn ascii_letter(c: char) -> bool {
    ('A' <= c <= 'Z') || ('a' <= c <= 'z')
}

/// A character of a deal prefix: an ASCII letter or a space.
pub open spec fn prefix_char(c: char) -> bool {
    ascii_letter(c) || c == ' '
}

/// The first position at or after `k` that does not hold a prefix character.
pub open spec fn prefix_end(s: Seq<char>, k: int) -> int
    decreases s.len() - k,
{
    if 0 <= k < s.len() && prefix_char(s[k]) {
        prefix_end(s, k + 1)
    } else {
        k
    }
}

/// The first position at or after `k` that does not hold a decimal digit.
pub open spec fn digits_end(s: Seq<char>, k: int) -> int
    decreases s.len() - k,
{
    if 0 <= k < s.len() && is_decimal(s[k]) {
        digits_end(s, k + 1)
    } else {
        k
    }
}

/// The digits of the discount suffix that starts at `k` and runs to the end of `s`: a `,`,
/// optional whitespace, one to three decimal digits, then `% Off` or `% Off!`.
pub open spec fn pct_suffix_at(s: Seq<char>, k: int) -> Option<Seq<char>> {
    if 0 <= k < s.len() && s[k] == ',' {
        let a = skip_ws_from(s, k + 1);
        let e = digits_end(s, a);
        if 1 <= e - a <= 3 && ((text_at(s, e, "% Off"@) && e + 5 == s.len()) || (text_at(
            s,
            e,
            "% Off!"@,
        ) && e + 6 == s.len())) {
            Some(s.subrange(a, e))
        } else {
            None
        }
    } else {
        None
    }
}

/// The first position at or after `k` where a discount suffix starts, or the end of `s`.
pub open spec fn title_end(s: Seq<char>, k: int) -> int
    decreases s.len() - k,
{
    if 0 <= k < s.len() && pct_suffix_at(s, k) is None {
        title_end(s, k + 1)
    } else {
        k
    }
}

/// The title and discount digits of a deal title shaped `Prefix - Title, N% Off`. The
/// prefix is an ASCII letter and at least one more letter or space; then come whitespace,
/// a `-`, and more whitespace. The title is as short as it can be (at least one
/// character), ending where a discount suffix or the text ends, and holds no line break.
/// When it would hold one, a single whitespace character before a discount suffix can be
/// the title instead; when only whitespace follows the `-`, the title is its last
/// character (not a line break) and there is no discount.
pub open spec fn deal_title_parts(s: Seq<char>) -> Option<(Seq<char>, Option<Seq<char>>)> {
    let m = prefix_end(s, 1);
    let d = skip_ws_from(s, m);
    if s.len() > 0 && ascii_letter(s[0]) && m >= 2 && d < s.len() && s[d] == '-' {
        let w = skip_ws_from(s, d + 1);
        if w < s.len() {
            let e = title_end(s, w + 1);
            if !s.subrange(w, e).contains('\n') {
                Some((s.subrange(w, e), if e < s.len() { pct_suffix_at(s, e) } else { None }))
            } else if w > d + 1 && s[w - 1] != '\n' && pct_suffix_at(s, w) is Some {
                Some((seq![s[w - 1]], pct_suffix_at(s, w)))
            } else {
                None
            }
        } else if d + 1 < s.len() && s.last() != '\n' {
            Some((seq![s.last()], None))
        } else {
            None
        }
    } else {
        None
    }
}

fn prefix_end_at(s: &Vec<char>, k: usize) -> (r: usize)
    requires
        k <= s@.len(),
    ensures
        r == prefix_end(s@, k as int),
        k <= r <= s@.len(),
{
    let mut i = k;
    while i < s.len() && (('A' <= s[i] && s[i] <= 'Z') || ('a' <= s[i] && s[i] <= 'z') || s[i] == ' ')
        invariant
            k <= i <= s@.len(),
            prefix_end(s@, k as int) == prefix_end(s@, i as int),
        decreases s@.len() - i,
    {
        i = i + 1;
    }
    i
}

fn digits_end_at(s: &Vec<char>, k: usize) -> (r: usize)
    requires
        k <= s@.len(),
    ensures
        r == digits_end(s@, k as int),
        k <= r <= s@.len(),
{
    let mut i = k;
    while i < s.len() && is_decimal_char(s[i])
        invariant
            k <= i <= s@.len(),
            digits_end(s@, k as int) == digits_end(s@, i as int),
        decreases s@.len() - i,
    {
        i = i + 1;
    }
    i
}

fn pct_suffix_exec(s: &Vec<char>, k: usize) -> (r: Option<String>)
    requires
        k <= s@.len(),
    ensures
        opt_string_view(r) == pct_suffix_at(s@, k as int),
{
    let n = s.len();
    if k >= n || s[k] != ',' {
        return None;
    }
    let a = skip_ws_at(s, k + 1);
    let e = digits_end_at(s, a);
    proof {
        reveal_strlit("% Off");
        reveal_strlit("% Off!");
    }
    let tail = n - e;
    if 1 <= e - a && e - a <= 3 && ((chars_at(s, e, "% Off") && tail == 5) || (chars_at(
        s,
        e,
        "% Off!",
    ) && tail == 6)) {
        Some(chars_between(s, a, e))
    } else {
        None
    }
}

fn title_end_at(s: &Vec<char>, k: usize) -> (r: usize)
    requires
        k <= s@.len(),
    ensures
        r == title_end(s@, k as int),
        k <= r <= s@.len(),
{
    let mut i = k;
    while i < s.len() && pct_suffix_exec(s, i).is_none()
        invariant
            k <= i <= s@.len(),
            title_end(s@, k as int) == title_end(s@, i as int),
        decreases s@.len() - i,
    {
        i = i + 1;
    }
    i
}

/// Reads the title and discount digits out of a deal title, as `deal_title_parts`
/// describes.
pub fn deal_title_split(raw: &str) -> (r: Option<(String, Option<String>)>)
    ensures
        match r {
            Some(p) => deal_title_parts(raw@) == Some((p.0@, opt_string_view(p.1))),
            None => deal_title_parts(raw@) is None,
        },
{
    let cs = chars_of(raw);
    let n = cs.len();
    if n == 0 || !(('A' <= cs[0] && cs[0] <= 'Z') || ('a' <= cs[0] && cs[0] <= 'z')) {
        return None;
    }
    let m = prefix_end_at(&cs, 1);
    let d = skip_ws_at(&cs, m);
    if m < 2 || d >= n || cs[d] != '-' {
        return None;
    }
    let w = skip_ws_at(&cs, d + 1);
    if w < n {
        let e = title_end_at(&cs, w + 1);
        let title = chars_between(&cs, w, e);
        if !range_contains(&cs, w, e, '\n') {
            let pct = if e < n {
                pct_suffix_exec(&cs, e)
            } else {
                None
            };
            Some((title, pct))
        } else if w > d + 1 && cs[w - 1] != '\n' {
            match pct_suffix_exec(&cs, w) {
                Some(p) => {
                    let one = chars_between(&cs, w - 1, w);
                    assert(cs@.subrange(w - 1, w as int) =~= seq![cs@[w - 1]]);
                    Some((one, Some(p)))
                },
                None => None,
            }
        } else {
            None
        }
    } else if d + 1 < n && cs[n - 1] != '\n' {
        let last = chars_between(&cs, n - 1, n);
        assert(cs@.subrange(n - 1, n as int) =~= seq![cs@.last()]);
        Some((last, None))
    } else {
        None
    }
}

/// Title and discount of a feed title: the trimmed title group and the percent (at most
/// 100) when it matches, else the whole text and no discount.
pub open spec fn spec_parse_title(raw: Seq<char>) -> (Seq<char>, Option<u32>) {
    match deal_title_parts(raw) {
        Some((t, pct)) => (
            trim(t),
            match pct {
                Some(p) => match spec_parse_u64(p) {
                    Some(n) => if n <= u32::MAX {
                        Some(if n > 100 { 100u32 } else { n as u32 })
                    } else {
                        None
                    },
                    None => None,
                },
                None => None,
            },
        ),
        None => (raw, None),
    }
}

/// Splits a deal title into the game and its discount.
pub fn parse_title(raw: &str) -> (r: (String, Option<u32>))
    ensures
        (r.0@, r.1) == spec_parse_title(raw@),
{
    match deal_title_split(raw) {
        Some((title, pct)) => {
            let t = trim_str(title.as_str());
            let p = match pct {
                Some(p) => match parse_u64(p.as_str()) {
                    Some(n) => if n <= u32::MAX as u64 {
                        Some(if n > 100 { 100u32 } else { n as u32 })
                    } else {
                        None
                    },
                    None => None,
                },
                None => None,
            };
            (t, p)
        },
        None => (String::from_str(raw), None),
    }
}

/// A deal as a row: the parsed title (`(unnamed deal)` when empty) and discount, sold on
/// The row an entry becomes.
pub open spec fn steam_row_ok(entry: FeedItem, r: DealRow) -> bool {
    &&& ({
            let raw = match entry.title {
                Some(t) => join(words(t@), " "@),
                None => Seq::empty(),
            };
            let (title, pct) = spec_parse_title(raw);
            &&& r.title@ == if title.len() == 0 { "(unnamed deal)"@ } else { title }
            &&& r.discount_pct == pct
        })
    &&& r.link@ == (match spec_link(entry) {
            Some(l) => l,
            None => "https://store.steampowered.com"@
        })
    &&& opt_string_view(r.image_url) == spec_thumbnail(entry)
    &&& r.sale_price is None
    &&& r.original_price is None
    &&& opt_string_view(r.store) == Some("Steam"@)
    &&& r.published == (match entry.published {
            Some(t) => Some(t),
            None => entry.updated
        })
}

/// Steam, linked to the entry or the store.
pub fn entry_to_row(entry: &FeedItem) -> (r: DealRow)
    ensures
        steam_row_ok(*entry, r),
{
    let raw = match &entry.title {
        Some(t) => collapse_whitespace(t.as_str()),
        None => String::new(),
    };
    let (title, discount_pct) = parse_title(raw.as_str());
    let title = if title.as_str().unicode_len() == 0 {
        String::from_str("(unnamed deal)")
    } else {
        title
    };
    let link = match link_for(entry) {
        Some(l) => l,
        None => String::from_str("https://store.steampowered.com"),
    };
    DealRow {
        title,
        image_url: thumbnail_url_for(entry),
        sale_price: None,
        original_price: None,
        discount_pct,
        store: Some(String::from_str("Steam")),
        link,
        published: match entry.published {
            Some(t) => Some(t),
            None => entry.updated,
        },
    }
}

impl SteamDailyFetcher {
    /// Cache key: the context plus the serialized options.
    pub fn cache_key(&self, ctx: &FetchContext, options_text: &str) -> (k: String)
        ensures
            k@ == spec_cache_key("deal_steam_daily"@, *ctx, options_text@),
    {
        keyed_cache_key("deal_steam_daily", ctx, options_text)
    }
}

impl SteamDailyFetcher {
    /// Canned body per supported shape (cards need downloads, so they have none).
    pub fn sample_body(&self, shape: Shape) -> (r: Option<Body>)
        ensures
            r is Some <==> (shape == Shape::LinkedTextBlock || shape == Shape::TextBlock || shape
                == Shape::MarkdownTextBlock || shape == Shape::Text || shape == Shape::Entries
                || shape == Shape::Bars || shape == Shape::Badge || shape == Shape::Timeline),
            shape == Shape::Badge ==> (r matches Some(Body::Badge(d)) && d.status == Status::Okay
                && d.label@ == "75% off"@),
            r matches Some(b) ==> crate::payload::spec_shape_of(b) == shape,
    {
        match shape {
            Shape::LinkedTextBlock => Some(
                samples::linked_text_block(
                    &[
                        (
                            "[Steam] Portal 2  75% off",
                            Some("https://store.steampowered.com/app/620/Portal_2/"),
                        ),
                        (
                            "[Steam] Hades  50% off",
                            Some("https://store.steampowered.com/app/1145360/Hades/"),
                        ),
                        (
                            "[Steam] Stardew Valley  40% off",
                            Some("https://store.steampowered.com/app/413150/Stardew_Valley/"),
                        ),
                    ],
                ),
            ),
            Shape::TextBlock => Some(
                samples::text_block(
                    &[
                        "[Steam] Portal 2  75% off",
                        "[Steam] Hades  50% off",
                        "[Steam] Stardew Valley  40% off",
                    ],
                ),
            ),
            Shape::MarkdownTextBlock => Some(
                samples::markdown(
                    "- [[Steam] Portal 2  75% off](https://store.steampowered.com/app/620/Portal_2/)\n- [[Steam] Hades  50% off](https://store.steampowered.com/app/1145360/Hades/)",
                ),
            ),
            Shape::Text => Some(samples::text("[Steam] Portal 2  75% off")),
            Shape::Entries => Some(
                samples::entries(
                    &[("Portal 2", "75% off"), ("Hades", "50% off"), ("Stardew Valley", "40% off")],
                ),
            ),
            Shape::Bars => Some(
                samples::bars(&[("Portal 2", 75), ("Hades", 50), ("Stardew Valley", 40)]),
            ),
            Shape::Badge => Some(samples::badge(Status::Okay, "75% off")),
            Shape::Timeline => Some(
                samples::timeline(
                    &[
                        (1_745_625_600, "Portal 2", Some("Steam · 75% off")),
                        (1_745_539_200, "Hades", Some("Steam · 50% off")),
                    ],
                ),
            ),
            _ => None,
        }
    }
}

/// Rows of the first `count` deals of the feed.
pub fn deal_rows(items: &[FeedItem], count: usize) -> (rows: Vec<DealRow>)
    ensures
        rows@.len() == (if count < items@.len() { count as int } else { items@.len() as int }),
        forall|i: int| 0 <= i < rows@.len() ==> steam_row_ok(items@[i], #[trigger] rows@[i]),
{
    let n: usize = if count < items.len() { count } else { items.len() };
    let mut rows: Vec<DealRow> = Vec::new();
    let mut i: usize = 0;
    while i < n
        invariant
            n <= items@.len(),
            i <= n,
            rows@.len() == i,
            forall|j: int| 0 <= j < i ==> steam_row_ok(items@[j], #[trigger] rows@[j]),
        decreases n - i,
    {
        rows.push(entry_to_row(&items[i]));
        i = i + 1;
    }
    rows
}

} // verus!
