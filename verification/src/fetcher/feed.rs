//! The feed rendering shared by the feed-backed fetchers: which link of an entry is the
//! article, which image stands for it, how a title is cleaned up, and how entries become
//! rows (`MMM DD  Title`) in every shape.
//!
//! An entry reaches the rendering as a `FeedItem`: the parts of the parsed feed entry it
//! reads, with its publish (else update) time printed as the widget's local `Mon DD`.
//! `parse_feed` reads the items out of a downloaded document; the date label, which needs
//! the reader's time zone, is filled in by the caller.

use vstd::prelude::*;
use vstd::string::*;

use feed_rs::parser::parse as parse_document;
use feed_rs::parser::ParseFeedError;
use chrono::DateTime;

use crate::fetcher::FetchError;
use crate::payload::{
    Body, EntriesData, Entry, ImageLinkedItem, ImageLinkedListData, LinkedLine, LinkedTextBlockData,
    MarkdownTextBlockData, TextBlockData, TextData, TimelineData, TimelineEvent,
};
use crate::render::Shape;
use crate::text::opt_string_view;
use crate::text::{
    ascii_upper_char, chars_between, chars_of, collapse_whitespace, has_prefix, is_ws, join,
    join_strings, replace_all, replace_str, skip_ws_at, skip_ws_from, starts_with, str_eq,
    u64_to_string, views, words, dec,
};

verus! {

/// Entries shown when the widget names no count.
pub const DEFAULT_COUNT: u32 = 5;

/// Fewest entries a widget may ask for.
pub const MIN_COUNT: u32 = 1;

/// Most entries a widget may ask for.
pub const MAX_COUNT: u32 = 20;

/// Largest response body read, in bytes.
pub const MAX_BYTES: usize = 5242880;

/// A link of an entry with its `rel`.
#[derive(Debug, Clone)]
pub struct FeedLink {
    pub href: String,
    pub rel: Option<String>,
}

/// A parsed feed entry as the rendering reads it: the raw title, links, publish and update
/// times (Unix seconds; the rendering reads the publish time, else the update time), that
/// time printed as
/// local `Mon DD` (empty without either), media thumbnails and media content URLs, and the
/// HTML of its content body and summary.
#[derive(Debug, Clone)]
pub struct FeedItem {
    pub title: Option<String>,
    pub links: Vec<FeedLink>,
    pub published: Option<i64>,
    pub updated: Option<i64>,
    pub date_label: String,
    pub thumbnails: Vec<String>,
    pub media_urls: Vec<String>,
    pub content_body: Option<String>,
    pub summary: Option<String>,
}

/// A feed entry as feed-rs reads it: title text, links as `(href, rel)`, publish time and
/// update time in Unix seconds, each media object's thumbnail URIs and content URLs (a
/// content item may have none), the content's body (the content may have none), and
/// summary text.
pub type RawEntry = (
    Option<String>,
    Vec<(String, Option<String>)>,
    Option<i64>,
    Option<i64>,
    Vec<(Vec<String>, Vec<Option<String>>)>,
    Option<Option<String>>,
    Option<String>,
);

/// What feed-rs reads out of a document: its entries, or `None` when the bytes are not a
/// feed it parses.
pub uninterp spec fn feed_entries_of(bytes: Seq<u8>) -> Option<Seq<RawEntry>>;

/// The error feed-rs reports for a document it cannot read.
#[verifier::external_type_specification]
#[verifier::external_body]
pub struct ExParseFeedError(ParseFeedError);

/// Parses a document with `feed_rs::parser::parse` and copies out, per entry, the parts
/// `RawEntry` lists. Claimed: the entries are `feed_entries_of(bytes)`, a function of the
/// bytes alone, and the error comes exactly when that is `None`. What feed-rs accepts and
/// how it maps each feed format onto entries stays feed-rs's.
#[verifier::external_body]
fn parse_entries(bytes: &[u8]) -> (r: Result<Vec<RawEntry>, ParseFeedError>)
    ensures
        match feed_entries_of(bytes@) {
            Some(v) => r matches Ok(x) && x@ == v,
            None => r is Err,
        },
{
    Ok(parse_document(bytes)?.entries.into_iter().map(|e| (
        e.title.map(|t| t.content),
        e.links.into_iter().map(|l| (l.href, l.rel)).collect(),
        e.published.as_ref().map(DateTime::timestamp),
        e.updated.as_ref().map(DateTime::timestamp),
        e.media.into_iter().map(|m| (m.thumbnails.into_iter().map(|t| t.image.uri).collect(),
            m.content.into_iter().map(|c| c.url.map(String::from)).collect())).collect(),
        e.content.map(|c| c.body),
        e.summary.map(|t| t.content)
    )).collect())
}

/// feed-rs's message for a parse error (its `Display`). Nothing is claimed of the text.
#[verifier::external_body]
fn parse_error_text(e: &ParseFeedError) -> String {
    e.to_string()
}

/// The thumbnail URIs of the media objects, in order.
pub open spec fn thumbs_of(m: Seq<(Vec<String>, Vec<Option<String>>)>) -> Seq<String>
    decreases m.len(),
{
    if m.len() == 0 {
        Seq::empty()
    } else {
        thumbs_of(m.drop_last()) + m.last().0@
    }
}

/// The URLs that are present, in order.
pub open spec fn present_urls(u: Seq<Option<String>>) -> Seq<String>
    decreases u.len(),
{
    if u.len() == 0 {
        Seq::empty()
    } else {
        match u.last() {
            Some(x) => present_urls(u.drop_last()).push(x),
            None => present_urls(u.drop_last()),
        }
    }
}

/// The content URLs of the media objects, in order; content without a URL is skipped.
pub open spec fn media_urls_of(m: Seq<(Vec<String>, Vec<Option<String>>)>) -> Seq<String>
    decreases m.len(),
{
    if m.len() == 0 {
        Seq::empty()
    } else {
        media_urls_of(m.drop_last()) + present_urls(m.last().1@)
    }
}

/// The body of the content, when there is content and it has a body.
pub open spec fn content_body_of(c: Option<Option<String>>) -> Option<String> {
    match c {
        Some(b) => b,
        None => None,
    }
}

/// `it` is the feed item of the entry `e`; its date label is not yet printed.
pub open spec fn item_of(e: RawEntry, it: FeedItem) -> bool {
    &&& it.title == e.0
    &&& it.links@.len() == e.1@.len()
    &&& forall|k: int| 0 <= k < e.1@.len() ==> #[trigger] it.links@[k].href == e.1@[k].0
        && it.links@[k].rel == e.1@[k].1
    &&& it.published == e.2
    &&& it.updated == e.3
    &&& it.date_label@.len() == 0
    &&& it.thumbnails@ == thumbs_of(e.4@)
    &&& it.media_urls@ == media_urls_of(e.4@)
    &&& it.content_body == content_body_of(e.5)
    &&& it.summary == e.6
}

/// Appends the URLs that are present, in order.
fn push_present(out: &mut Vec<String>, urls: Vec<Option<String>>)
    ensures
        final(out)@ == old(out)@ + present_urls(urls@),
{
    let ghost u0 = urls@;
    let ghost start = out@;
    let n = urls.len();
    let mut urls = urls;
    let mut i: usize = 0;
    assert(u0.take(0) =~= Seq::<Option<String>>::empty());
    while urls.len() > 0
        invariant
            i + urls@.len() == u0.len(),
            u0.len() == n,
            urls@ == u0.skip(i as int),
            out@ == start + present_urls(u0.take(i as int)),
        decreases urls@.len(),
    {
        let u = urls.remove(0);
        proof {
            assert(u0.take(i + 1).drop_last() =~= u0.take(i as int));
            assert(u0.skip(i as int).remove(0) =~= u0.skip(i + 1));
            assert(u == u0[i as int]);
        }
        match u {
            Some(x) => {
                out.push(x);
                proof {
                    assert(out@ =~= start + present_urls(u0.take(i + 1)));
                }
            },
            None => {},
        }
        i += 1;
    }
    proof {
        assert(u0.take(i as int) =~= u0);
    }
}

/// All thumbnail URIs and all present content URLs of the media objects, each in order.
fn flatten_media(media: Vec<(Vec<String>, Vec<Option<String>>)>) -> (r: (Vec<String>, Vec<String>))
    ensures
        r.0@ == thumbs_of(media@),
        r.1@ == media_urls_of(media@),
{
    let ghost m0 = media@;
    let n = media.len();
    let mut media = media;
    let mut thumbs: Vec<String> = Vec::new();
    let mut urls: Vec<String> = Vec::new();
    let mut i: usize = 0;
    while media.len() > 0
        invariant
            i + media@.len() == m0.len(),
            m0.len() == n,
            media@ == m0.skip(i as int),
            thumbs@ == thumbs_of(m0.take(i as int)),
            urls@ == media_urls_of(m0.take(i as int)),
        decreases media@.len(),
    {
        let (mut t, u) = media.remove(0);
        proof {
            assert(m0.take(i + 1).drop_last() =~= m0.take(i as int));
            assert(m0.skip(i as int).remove(0) =~= m0.skip(i + 1));
        }
        thumbs.append(&mut t);
        push_present(&mut urls, u);
        i += 1;
    }
    proof {
        assert(m0.take(i as int) =~= m0);
    }
    (thumbs, urls)
}

/// The links, in order.
fn to_links(raw: Vec<(String, Option<String>)>) -> (r: Vec<FeedLink>)
    ensures
        r@.len() == raw@.len(),
        forall|k: int| 0 <= k < raw@.len() ==> #[trigger] r@[k].href == raw@[k].0 && r@[k].rel
            == raw@[k].1,
{
    let ghost l0 = raw@;
    let n = raw.len();
    let mut raw = raw;
    let mut out: Vec<FeedLink> = Vec::new();
    let mut i: usize = 0;
    while raw.len() > 0
        invariant
            i + raw@.len() == l0.len(),
            l0.len() == n,
            raw@ == l0.skip(i as int),
            out@.len() == i,
            forall|k: int| 0 <= k < i ==> #[trigger] out@[k].href == l0[k].0 && out@[k].rel
                == l0[k].1,
        decreases raw@.len(),
    {
        let (href, rel) = raw.remove(0);
        proof {
            assert(l0.skip(i as int).remove(0) =~= l0.skip(i + 1));
        }
        out.push(FeedLink { href, rel });
        i += 1;
    }
    out
}

/// The feed item of an entry, its date label left empty.
fn to_item(e: RawEntry) -> (it: FeedItem)
    ensures
        item_of(e, it),
{
    let (title, links, published, updated, media, content, summary) = e;
    let (thumbnails, media_urls) = flatten_media(media);
    let links = to_links(links);
    let date_label = String::new();
    assert(date_label@.len() == 0);
    let content_body = match content {
        Some(b) => b,
        None => None,
    };
    let it = FeedItem {
        title,
        links,
        published,
        updated,
        date_label,
        thumbnails,
        media_urls,
        content_body,
        summary,
    };
    assert(it.title == e.0);
    assert(it.links@.len() == e.1@.len());
    assert(it.published == e.2 && it.updated == e.3);
    assert(it.thumbnails@ == thumbs_of(e.4@));
    assert(it.media_urls@ == media_urls_of(e.4@));
    assert(it.content_body == content_body_of(e.5) && it.summary == e.6);
    it
}

/// The entries of a downloaded feed as feed items (date labels empty); a document that
/// does not parse fails with `<label> parse: ` and feed-rs's message.
pub fn parse_feed(bytes: &[u8], label: &str) -> (r: Result<Vec<FeedItem>, FetchError>)
    ensures
        match feed_entries_of(bytes@) {
            Some(v) => r matches Ok(x) && x@.len() == v.len() && forall|i: int|
                0 <= i < v.len() ==> item_of(v[i], #[trigger] x@[i]),
            None => r matches Err(FetchError::Failed(m)) && has_prefix(m@, label@ + " parse: "@),
        },
{
    match parse_entries(bytes) {
        Ok(raw) => {
            let ghost v = raw@;
            let n = raw.len();
            let mut raw = raw;
            let mut items: Vec<FeedItem> = Vec::new();
            let mut i: usize = 0;
            while raw.len() > 0
                invariant
                    i + raw@.len() == v.len(),
                    v.len() == n,
                    raw@ == v.skip(i as int),
                    items@.len() == i,
                    forall|k: int| 0 <= k < i ==> item_of(v[k], #[trigger] items@[k]),
                decreases raw@.len(),
            {
                let e = raw.remove(0);
                proof {
                    assert(v.skip(i as int).remove(0) =~= v.skip(i + 1));
                }
                items.push(to_item(e));
                i += 1;
            }
            Ok(items)
        },
        Err(e) => {
            let mut m = String::from_str(label);
            m.append(" parse: ");
            let ghost head = m@;
            let detail = parse_error_text(&e);
            m.append(detail.as_str());
            assert(m@.take(head.len() as int) =~= head);
            Err(FetchError::Failed(m))
        },
    }
}

/// Refuses a body larger than `MAX_BYTES`.
pub fn check_body_size(len: usize, label: &str) -> (r: Result<(), FetchError>)
    ensures
        len <= 5242880 ==> r is Ok,
        len > 5242880 ==> (r matches Err(FetchError::Failed(m)) && m@ == label@
            + " response too large ("@ + dec(len as nat) + " bytes, cap 5242880)"@),
{
    if len > MAX_BYTES {
        let mut m = String::from_str(label);
        m.append(" response too large (");
        let n = u64_to_string(len as u64);
        m.append(n.as_str());
        m.append(" bytes, cap 5242880)");
        return Err(FetchError::Failed(m));
    }
    Ok(())
}

/// The title of an entry with runs of whitespace collapsed, `(no title)` when that is
/// empty or missing.
pub open spec fn spec_title(e: FeedItem) -> Seq<char> {
    match e.title {
        Some(t) => if join(words(t@), " "@).len() > 0 {
            join(words(t@), " "@)
        } else {
            "(no title)"@
        },
        None => "(no title)"@,
    }
}

/// Display title of an entry.
pub fn title_or_placeholder(e: &FeedItem) -> (s: String)
    ensures
        s@ == spec_title(*e),
{
    match &e.title {
        Some(t) => {
            let c = collapse_whitespace(t.as_str());
            if c.unicode_len() > 0 {
                c
            } else {
                String::from_str("(no title)")
            }
        },
        None => String::from_str("(no title)"),
    }
}

/// The article link of a link list: the first non-empty `href` whose `rel` is absent or
/// `alternate`.
pub open spec fn first_alternate(links: Seq<FeedLink>) -> Option<Seq<char>>
    decreases links.len(),
{
    if links.len() == 0 {
        None
    } else if links[0].href@.len() > 0 && match links[0].rel {
        Some(r) => r@ == "alternate"@,
        None => true,
    } {
        Some(links[0].href@)
    } else {
        first_alternate(links.drop_first())
    }
}

/// The first non-empty `href`.
pub open spec fn first_href(links: Seq<FeedLink>) -> Option<Seq<char>>
    decreases links.len(),
{
    if links.len() == 0 {
        None
    } else if links[0].href@.len() > 0 {
        Some(links[0].href@)
    } else {
        first_href(links.drop_first())
    }
}

/// The article link: `rel="alternate"` (or no `rel`) wins over `self` and the rest, any
/// non-empty link otherwise.
pub open spec fn spec_link(e: FeedItem) -> Option<Seq<char>> {
    match first_alternate(e.links@) {
        Some(h) => Some(h),
        None => first_href(e.links@),
    }
}

/// Link of an entry.
pub fn link_for(e: &FeedItem) -> (r: Option<String>)
    ensures
        opt_string_view(r) == spec_link(*e),
{
    let mut i: usize = 0;
    assert(e.links@.skip(0) =~= e.links@);
    while i < e.links.len()
        invariant
            i <= e.links@.len(),
            first_alternate(e.links@) == first_alternate(e.links@.skip(i as int)),
        decreases e.links@.len() - i,
    {
        assert(e.links@.skip(i as int)[0] == e.links@[i as int]);
        assert(e.links@.skip(i as int).drop_first() =~= e.links@.skip(i + 1));
        let l = &e.links[i];
        let default_rel = match &l.rel {
            Some(r) => str_eq(r.as_str(), "alternate"),
            None => true,
        };
        if l.href.unicode_len() > 0 && default_rel {
            return Some(l.href.clone());
        }
        i = i + 1;
    }
    let mut j: usize = 0;
    while j < e.links.len()
        invariant
            j <= e.links@.len(),
            first_alternate(e.links@) is None,
            first_href(e.links@) == first_href(e.links@.skip(j as int)),
        decreases e.links@.len() - j,
    {
        assert(e.links@.skip(j as int)[0] == e.links@[j as int]);
        assert(e.links@.skip(j as int).drop_first() =~= e.links@.skip(j + 1));
        if e.links[j].href.unicode_len() > 0 {
            return Some(e.links[j].href.clone());
        }
        j = j + 1;
    }
    None
}

/// `s` with `&amp;`, `&#x2F;`, `&#x3D;`, `&quot;` and `&#39;` decoded, in that order.
pub open spec fn spec_decode_entities(s: Seq<char>) -> Seq<char> {
    replace_all(
        replace_all(
            replace_all(replace_all(replace_all(s, "&amp;"@, "&"@), "&#x2F;"@, "/"@), "&#x3D;"@, "="@),
            "&quot;"@,
            "\""@,
        ),
        "&#39;"@,
        "'"@,
    )
}

/// Decodes the entities an attribute value of an HTML image tag commonly carries.
pub fn decode_html_entities(s: &str) -> (r: String)
    ensures
        r@ == spec_decode_entities(s@),
{
    proof {
        reveal_strlit("&amp;");
        reveal_strlit("&#x2F;");
        reveal_strlit("&#x3D;");
        reveal_strlit("&quot;");
        reveal_strlit("&#39;");
    }
    let a = replace_str(s, "&amp;", "&");
    let b = replace_str(a.as_str(), "&#x2F;", "/");
    let c = replace_str(b.as_str(), "&#x3D;", "=");
    let d = replace_str(c.as_str(), "&quot;", "\"");
    replace_str(d.as_str(), "&#39;", "'")
}

/// Whether `c` is a word character as the regex crate's Unicode `\w` class defines it
/// (letters, marks, decimal digits, connector punctuation and join controls).
pub uninterp spec fn word_char(c: char) -> bool;

/// Tests one character against the regex crate's Unicode `\w` class. Claimed: the result
/// is `word_char(c)`, a function of the character alone, and on ASCII it holds exactly for
/// letters, digits and `_`.
#[verifier::external_body]
fn is_word_char(c: char) -> (r: bool)
    ensures
        r == word_char(c),
        (c as u32) < 128 ==> (r <==> (('a' <= c <= 'z') || ('A' <= c <= 'Z') || ('0' <= c <= '9')
            || c == '_')),
{
    regex::Regex::new(r"^\w$").unwrap().is_match(&c.to_string())
}

/// `c` is the small letter `l` in either case, or the long s `ſ` for `s`: the characters
/// case-insensitive matching takes for these letters.
pub open spec fn letter_ci(c: char, l: char) -> bool {
    c == l || c == ascii_upper_char(l) || (l == 's' && c == '\u{17f}')
}

/// `s` holds the three letters `a`, `b`, `c` from position `k` on, in any case.
pub open spec fn word3_ci(s: Seq<char>, k: int, a: char, b: char, c: char) -> bool {
    0 <= k && k + 3 <= s.len() && letter_ci(s[k], a) && letter_ci(s[k + 1], b) && letter_ci(
        s[k + 2],
        c,
    )
}

/// A quote character.
pub open spec fn quote_char(c: char) -> bool {
    c == '"' || c == '\''
}

/// The first position at or after `k` that holds a quote character, or the end of `s`.
pub open spec fn quote_end(s: Seq<char>, k: int) -> int
    decreases s.len() - k,
{
    if 0 <= k < s.len() && !quote_char(s[k]) {
        quote_end(s, k + 1)
    } else {
        k
    }
}

/// A `src` attribute starting at `q`: `src` in any case, not glued to a word character
/// before it, optional whitespace, `=`, optional whitespace, a quote, at least one
/// non-quote character, and a quote. Gives where the value starts and ends.
pub open spec fn src_attr_at(s: Seq<char>, q: int) -> Option<(int, int)> {
    if 1 <= q && word3_ci(s, q, 's', 'r', 'c') && !word_char(s[q - 1]) {
        let e = skip_ws_from(s, q + 3);
        if e < s.len() && s[e] == '=' {
            let o = skip_ws_from(s, e + 1);
            if o < s.len() && quote_char(s[o]) {
                let c = quote_end(s, o + 1);
                if o + 1 < c < s.len() {
                    Some((o + 1, c))
                } else {
                    None
                }
            } else {
                None
            }
        } else {
            None
        }
    } else {
        None
    }
}

/// The first `src` attribute at or after `q` that comes before any `>`.
pub open spec fn first_src_from(s: Seq<char>, q: int) -> Option<(int, int)>
    decreases s.len() - q,
{
    if 0 <= q < s.len() {
        match src_attr_at(s, q) {
            Some(x) => Some(x),
            None => if s[q] == '>' {
                None
            } else {
                first_src_from(s, q + 1)
            },
        }
    } else {
        None
    }
}

/// An image tag starting at `k`: `<img` in any case, not followed by a word character,
/// then its first `src` attribute before a `>`. Gives where the value starts and ends.
pub open spec fn img_at(s: Seq<char>, k: int) -> Option<(int, int)> {
    if 0 <= k && k + 4 <= s.len() && s[k] == '<' && word3_ci(s, k + 1, 'i', 'm', 'g') && (k + 4
        == s.len() || !word_char(s[k + 4])) {
        first_src_from(s, k + 4)
    } else {
        None
    }
}

/// The `src` values of the image tags from position `k` on, in order; the search goes on
/// after the closing quote of each value found.
pub open spec fn img_sources_from(s: Seq<char>, k: int) -> Seq<Seq<char>>
    decreases s.len() - k,
{
    if 0 <= k < s.len() {
        match img_at(s, k) {
            Some((a, b)) => if 0 <= a <= b && k <= b < s.len() {
                seq![s.subrange(a, b)] + img_sources_from(s, b + 1)
            } else {
                img_sources_from(s, k + 1)
            },
            None => img_sources_from(s, k + 1),
        }
    } else {
        Seq::empty()
    }
}

/// The `src` values of the `<img>` tags of an HTML text, in order.
pub open spec fn img_sources(html: Seq<char>) -> Seq<Seq<char>> {
    img_sources_from(html, 0)
}

fn letter_ci_exec(c: char, l: char) -> (r: bool)
    requires
        l == 'i' || l == 'm' || l == 'g' || l == 's' || l == 'r' || l == 'c',
    ensures
        r == letter_ci(c, l),
{
    let upper = if l == 'i' {
        'I'
    } else if l == 'm' {
        'M'
    } else if l == 'g' {
        'G'
    } else if l == 's' {
        'S'
    } else if l == 'r' {
        'R'
    } else {
        'C'
    };
    assert(upper == ascii_upper_char(l)) by {
        assert(('i' as u32) - 32 == ('I' as u32));
        assert(('m' as u32) - 32 == ('M' as u32));
        assert(('g' as u32) - 32 == ('G' as u32));
        assert(('s' as u32) - 32 == ('S' as u32));
        assert(('r' as u32) - 32 == ('R' as u32));
        assert(('c' as u32) - 32 == ('C' as u32));
    }
    c == l || c == upper || (l == 's' && c == '\u{17f}')
}

fn word3_ci_exec(s: &Vec<char>, k: usize, a: char, b: char, c: char) -> (r: bool)
    requires
        a == 'i' || a == 's',
        b == 'm' || b == 'r',
        c == 'g' || c == 'c',
    ensures
        r == word3_ci(s@, k as int, a, b, c),
{
    k <= s.len() && s.len() - k >= 3 && letter_ci_exec(s[k], a) && letter_ci_exec(s[k + 1], b)
        && letter_ci_exec(s[k + 2], c)
}

fn quote_end_at(s: &Vec<char>, k: usize) -> (r: usize)
    requires
        k <= s@.len(),
    ensures
        r == quote_end(s@, k as int),
        k <= r <= s@.len(),
{
    let mut i = k;
    while i < s.len() && !(s[i] == '"' || s[i] == '\'')
        invariant
            k <= i <= s@.len(),
            quote_end(s@, k as int) == quote_end(s@, i as int),
        decreases s@.len() - i,
    {
        i = i + 1;
    }
    i
}

fn src_attr_exec(s: &Vec<char>, q: usize) -> (r: Option<(usize, usize)>)
    requires
        q <= s@.len(),
    ensures
        match r {
            Some((a, b)) => src_attr_at(s@, q as int) == Some((a as int, b as int)),
            None => src_attr_at(s@, q as int) is None,
        },
{
    let n = s.len();
    if q < 1 || !word3_ci_exec(s, q, 's', 'r', 'c') || is_word_char(s[q - 1]) {
        return None;
    }
    let e = skip_ws_at(s, q + 3);
    if e >= n || s[e] != '=' {
        return None;
    }
    let o = skip_ws_at(s, e + 1);
    if o >= n || !(s[o] == '"' || s[o] == '\'') {
        return None;
    }
    let c = quote_end_at(s, o + 1);
    if o + 1 < c && c < n {
        Some((o + 1, c))
    } else {
        None
    }
}

fn first_src_exec(s: &Vec<char>, q: usize) -> (r: Option<(usize, usize)>)
    requires
        q <= s@.len(),
    ensures
        match r {
            Some((a, b)) => first_src_from(s@, q as int) == Some((a as int, b as int)),
            None => first_src_from(s@, q as int) is None,
        },
{
    let mut i = q;
    while i < s.len()
        invariant
            q <= i <= s@.len(),
            first_src_from(s@, q as int) == first_src_from(s@, i as int),
        decreases s@.len() - i,
    {
        match src_attr_exec(s, i) {
            Some(x) => {
                return Some(x);
            },
            None => {
                if s[i] == '>' {
                    return None;
                }
            },
        }
        i = i + 1;
    }
    None
}

fn img_at_exec(s: &Vec<char>, k: usize) -> (r: Option<(usize, usize)>)
    requires
        k <= s@.len(),
    ensures
        match r {
            Some((a, b)) => img_at(s@, k as int) == Some((a as int, b as int)),
            None => img_at(s@, k as int) is None,
        },
{
    let n = s.len();
    if n - k < 4 || s[k] != '<' || !word3_ci_exec(s, k + 1, 'i', 'm', 'g') {
        return None;
    }
    if k + 4 < n && is_word_char(s[k + 4]) {
        return None;
    }
    first_src_exec(s, k + 4)
}

proof fn lemma_skip_ws_from_grows(s: Seq<char>, k: int)
    ensures
        skip_ws_from(s, k) >= k,
    decreases s.len() - k,
{
    if 0 <= k < s.len() && is_ws(s[k]) {
        lemma_skip_ws_from_grows(s, k + 1);
    }
}

proof fn lemma_first_src_bounds(s: Seq<char>, q: int)
    ensures
        first_src_from(s, q) matches Some((a, b)) ==> q < a < b < s.len(),
    decreases s.len() - q,
{
    if 0 <= q < s.len() {
        if src_attr_at(s, q) is Some {
            lemma_skip_ws_from_grows(s, q + 3);
            lemma_skip_ws_from_grows(s, skip_ws_from(s, q + 3) + 1);
        } else if s[q] != '>' {
            lemma_first_src_bounds(s, q + 1);
        }
    }
}

proof fn lemma_src_bounds(s: Seq<char>, k: int)
    requires
        0 <= k,
    ensures
        img_at(s, k) matches Some((a, b)) ==> k < a < b < s.len(),
{
    lemma_first_src_bounds(s, k + 4);
}

/// The `src` values of the image tags of an HTML text, in order.
pub fn image_sources(html: &str) -> (r: Vec<String>)
    ensures
        views(r@) == img_sources(html@),
{
    let s = chars_of(html);
    let mut out: Vec<String> = Vec::new();
    let mut k: usize = 0;
    while k < s.len()
        invariant
            s@ == html@,
            k <= s@.len(),
            views(out@) + img_sources_from(s@, k as int) == img_sources(html@),
        decreases s@.len() - k,
    {
        let ghost pre = views(out@);
        match img_at_exec(&s, k) {
            Some((a, b)) => {
                proof {
                    lemma_src_bounds(s@, k as int);
                }
                let v = chars_between(&s, a, b);
                out.push(v);
                proof {
                    assert(views(out@) =~= pre.push(v@));
                    assert(seq![s@.subrange(a as int, b as int)] + img_sources_from(s@, b + 1)
                        =~= img_sources_from(s@, k as int));
                    assert(views(out@) + img_sources_from(s@, b + 1) =~= pre + img_sources_from(
                        s@,
                        k as int,
                    ));
                }
                k = b + 1;
            },
            None => {
                k = k + 1;
            },
        }
    }
    out
}

/// A decoded source that is an HTTP(S) URL.
pub open spec fn web_url(u: Seq<char>) -> bool {
    has_prefix(u, "http://"@) || has_prefix(u, "https://"@)
}

/// The first decoded image source of a list that is an HTTP(S) URL.
pub open spec fn first_web_source(srcs: Seq<Seq<char>>) -> Option<Seq<char>>
    decreases srcs.len(),
{
    if srcs.len() == 0 {
        None
    } else if web_url(spec_decode_entities(srcs[0])) {
        Some(spec_decode_entities(srcs[0]))
    } else {
        first_web_source(srcs.drop_first())
    }
}

/// The source of the first HTTP(S) image of an HTML text, entities decoded.
pub fn first_inline_image_src(html: &str) -> (r: Option<String>)
    ensures
        opt_string_view(r) == first_web_source(img_sources(html@)),
{
    let srcs = image_sources(html);
    let ghost all = img_sources(html@);
    let mut i: usize = 0;
    assert(all.skip(0) =~= all);
    while i < srcs.len()
        invariant
            all == img_sources(html@),
            views(srcs@) == all,
            i <= srcs@.len(),
            first_web_source(all) == first_web_source(all.skip(i as int)),
        decreases srcs@.len() - i,
    {
        assert(all.skip(i as int).len() > 0);
        assert(all.skip(i as int)[0] == srcs@[i as int]@);
        assert(all.skip(i as int).drop_first() =~= all.skip(i + 1));
        let d = decode_html_entities(srcs[i].as_str());
        let plain = starts_with(d.as_str(), "http://");
        let secure = starts_with(d.as_str(), "https://");
        if plain || secure {
            assert(d@ == spec_decode_entities(all.skip(i as int)[0]));
            return Some(d);
        }
        i = i + 1;
    }
    None
}

/// The first non-empty text of a list.
pub open spec fn first_non_empty(v: Seq<String>) -> Option<Seq<char>>
    decreases v.len(),
{
    if v.len() == 0 {
        None
    } else if v[0]@.len() > 0 {
        Some(v[0]@)
    } else {
        first_non_empty(v.drop_first())
    }
}

fn first_non_empty_of(v: &Vec<String>) -> (r: Option<String>)
    ensures
        opt_string_view(r) == first_non_empty(v@),
{
    let mut i: usize = 0;
    assert(v@.skip(0) =~= v@);
    while i < v.len()
        invariant
            i <= v@.len(),
            first_non_empty(v@) == first_non_empty(v@.skip(i as int)),
        decreases v@.len() - i,
    {
        assert(v@.skip(i as int)[0] == v@[i as int]);
        assert(v@.skip(i as int).drop_first() =~= v@.skip(i + 1));
        if v[i].unicode_len() > 0 {
            return Some(v[i].clone());
        }
        i = i + 1;
    }
    None
}

/// The image standing for an entry: a media thumbnail, else a media content URL, else the
/// first HTTP(S) image of the content body, else of the summary.
pub open spec fn spec_thumbnail(e: FeedItem) -> Option<Seq<char>> {
    match first_non_empty(e.thumbnails@) {
        Some(u) => Some(u),
        None => match first_non_empty(e.media_urls@) {
            Some(u) => Some(u),
            None => match (
                match e.content_body {
                    Some(b) => first_web_source(img_sources(b@)),
                    None => None,
                }
            ) {
                Some(u) => Some(u),
                None => match e.summary {
                    Some(s) => first_web_source(img_sources(s@)),
                    None => None,
                },
            },
        },
    }
}

/// Image URL of an entry.
pub fn thumbnail_url_for(e: &FeedItem) -> (r: Option<String>)
    ensures
        opt_string_view(r) == spec_thumbnail(*e),
{
    match first_non_empty_of(&e.thumbnails) {
        Some(u) => return Some(u),
        None => {},
    }
    match first_non_empty_of(&e.media_urls) {
        Some(u) => return Some(u),
        None => {},
    }
    let from_body = match &e.content_body {
        Some(b) => first_inline_image_src(b.as_str()),
        None => None,
    };
    match from_body {
        Some(u) => Some(u),
        None => match &e.summary {
            Some(s) => first_inline_image_src(s.as_str()),
            None => None,
        },
    }
}

/// The host of a URL as the url crate parses it, none when it does not parse or has no
/// host.
pub uninterp spec fn url_host_of(u: Seq<char>) -> Option<Seq<char>>;

/// `url::Url::parse(u)` and its `host_str()`. Claimed: the result is `url_host_of(u)`, a
/// function of the text alone.
#[verifier::external_body]
fn url_host(u: &str) -> (r: Option<String>)
    ensures
        opt_string_view(r) == url_host_of(u@),
{
    url::Url::parse(u).ok().and_then(|x| x.host_str().map(|h| h.to_string()))
}

/// The host of the entry's link.
pub open spec fn spec_link_host(e: FeedItem) -> Option<Seq<char>> {
    match spec_link(e) {
        Some(u) => url_host_of(u),
        None => None,
    }
}

/// Host of the article an entry links to.
pub fn link_host(e: &FeedItem) -> (r: Option<String>)
    ensures
        opt_string_view(r) == spec_link_host(*e),
{
    match link_for(e) {
        Some(u) => url_host(u.as_str()),
        None => None,
    }
}

/// `date · host`, or the half that exists.
pub open spec fn spec_subtitle(e: FeedItem) -> Option<Seq<char>> {
    match spec_link_host(e) {
        Some(h) => if e.date_label@.len() == 0 {
            Some(h)
        } else {
            Some(e.date_label@ + " · "@ + h)
        },
        None => if e.date_label@.len() == 0 {
            None
        } else {
            Some(e.date_label@)
        },
    }
}

/// Subtitle of an entry's card: its date and the host of its link.
pub fn subtitle_for(e: &FeedItem) -> (r: Option<String>)
    ensures
        opt_string_view(r) == spec_subtitle(*e),
{
    let empty_date = e.date_label.unicode_len() == 0;
    match link_host(e) {
        Some(h) => if empty_date {
            Some(h)
        } else {
            let mut s = e.date_label.clone();
            s.append(" · ");
            s.append(h.as_str());
            Some(s)
        },
        None => if empty_date {
            None
        } else {
            Some(e.date_label.clone())
        },
    }
}

/// `date  title`, the title alone without a date.
pub open spec fn spec_line(e: FeedItem) -> Seq<char> {
    if e.date_label@.len() == 0 {
        spec_title(e)
    } else {
        e.date_label@ + "  "@ + spec_title(e)
    }
}

/// Row text of an entry.
pub fn line_text(e: &FeedItem) -> (s: String)
    ensures
        s@ == spec_line(*e),
{
    let title = title_or_placeholder(e);
    if e.date_label.unicode_len() == 0 {
        title
    } else {
        let mut s = e.date_label.clone();
        s.append("  ");
        s.append(title.as_str());
        s
    }
}

/// `- [line](url)` with a link, `- line` without.
pub open spec fn spec_markdown_line(e: FeedItem) -> Seq<char> {
    match spec_link(e) {
        Some(u) => "- ["@ + spec_line(e) + "]("@ + u + ")"@,
        None => "- "@ + spec_line(e),
    }
}

fn markdown_line(e: &FeedItem) -> (s: String)
    ensures
        s@ == spec_markdown_line(*e),
{
    let line = line_text(e);
    match link_for(e) {
        Some(u) => {
            let mut s = String::from_str("- [");
            s.append(line.as_str());
            s.append("](");
            s.append(u.as_str());
            s.append(")");
            s
        },
        None => {
            let mut s = String::from_str("- ");
            s.append(line.as_str());
            s
        },
    }
}

/// The first `count` entries.
pub open spec fn first_entries(items: Seq<FeedItem>, count: int) -> Seq<FeedItem> {
    if count < items.len() {
        items.take(count)
    } else {
        items
    }
}

/// When an entry happened: its publish time, else its update time, else 0.
pub open spec fn spec_timestamp(e: FeedItem) -> i64 {
    match e.published {
        Some(t) => t,
        None => match e.updated {
            Some(t) => t,
            None => 0,
        },
    }
}

/// The time an entry is dated by: its publish time, else its update time.
pub fn dated_time(item: &FeedItem) -> (r: Option<i64>)
    ensures
        r == (match item.published {
            Some(t) => Some(t),
            None => item.updated,
        }),
{
    match item.published {
        Some(t) => Some(t),
        None => item.updated,
    }
}

/// What `render_body` yields for each shape.
pub open spec fn feed_body_ok(items: Seq<FeedItem>, count: int, shape: Shape, b: Body) -> bool {
    let rows = first_entries(items, count);
    match shape {
        Shape::Text => b matches Body::Text(d) && d.value@ == (if rows.len() == 0 {
            Seq::empty()
        } else {
            spec_title(rows[0])
        }),
        Shape::TextBlock => b matches Body::TextBlock(d) && d.lines@.len() == rows.len() && forall|i: int|
            0 <= i < rows.len() ==> #[trigger] d.lines@[i]@ == spec_line(rows[i]),
        Shape::MarkdownTextBlock => b matches Body::MarkdownTextBlock(d) && d.value@ == join(
            Seq::new(rows.len(), |i: int| spec_markdown_line(rows[i])),
            "\n"@,
        ),
        Shape::Entries => b matches Body::Entries(d) && d.items@.len() == rows.len() && forall|i: int|
            0 <= i < rows.len() ==> #[trigger] d.items@[i].key@ == spec_title(rows[i])
                && opt_string_view(d.items@[i].value) == (if rows[i].date_label@.len() == 0 {
                None
            } else {
                Some(rows[i].date_label@)
            }) && d.items@[i].status is None,
        Shape::Timeline => b matches Body::Timeline(d) && d.events@.len() == rows.len() && forall|i: int|
            0 <= i < rows.len() ==> #[trigger] d.events@[i].timestamp == spec_timestamp(rows[i])
                && d.events@[i].title@ == spec_title(rows[i]) && opt_string_view(d.events@[i].detail)
                == spec_link_host(rows[i]) && d.events@[i].status is None,
        _ => b matches Body::LinkedTextBlock(d) && d.items@.len() == rows.len() && forall|i: int|
            0 <= i < rows.len() ==> #[trigger] d.items@[i].text@ == spec_line(rows[i])
                && opt_string_view(d.items@[i].url) == spec_link(rows[i]),
    }
}

/// Renders the first `count` entries in the requested shape; unlisted shapes get linked
/// rows.
#[verifier::spinoff_prover]
pub fn render_body(items: &[FeedItem], count: usize, shape: Shape) -> (b: Body)
    ensures
        feed_body_ok(items@, count as int, shape, b),
{
    let n: usize = if count < items.len() { count } else { items.len() };
    let ghost rows = first_entries(items@, count as int);
    assert(rows =~= items@.take(n as int));
    match shape {
        Shape::Text => {
            let value = if n == 0 {
                String::new()
            } else {
                title_or_placeholder(&items[0])
            };
            Body::Text(TextData { value })
        },
        Shape::TextBlock => {
            let mut lines: Vec<String> = Vec::new();
            let mut i: usize = 0;
            while i < n
                invariant
                    n <= items@.len(),
                    rows =~= items@.take(n as int),
                    i <= n,
                    lines@.len() == i,
                    forall|j: int| 0 <= j < i ==> #[trigger] lines@[j]@ == spec_line(rows[j]),
                decreases n - i,
            {
                lines.push(line_text(&items[i]));
                i = i + 1;
            }
            Body::TextBlock(TextBlockData { lines })
        },
        Shape::MarkdownTextBlock => {
            let mut parts: Vec<String> = Vec::new();
            let mut i: usize = 0;
            while i < n
                invariant
                    n <= items@.len(),
                    rows =~= items@.take(n as int),
                    i <= n,
                    parts@.len() == i,
                    forall|j: int| 0 <= j < i ==> #[trigger] parts@[j]@ == spec_markdown_line(rows[j]),
                decreases n - i,
            {
                parts.push(markdown_line(&items[i]));
                i = i + 1;
            }
            assert(views(parts@) =~= Seq::new(rows.len(), |i: int| spec_markdown_line(rows[i])));
            let value = join_strings(&parts, "\n");
            Body::MarkdownTextBlock(MarkdownTextBlockData { value })
        },
        Shape::Entries => {
            let mut out: Vec<Entry> = Vec::new();
            let mut i: usize = 0;
            while i < n
                invariant
                    n <= items@.len(),
                    rows =~= items@.take(n as int),
                    i <= n,
                    out@.len() == i,
                    forall|j: int| 0 <= j < i ==> #[trigger] out@[j].key@ == spec_title(rows[j]),
                    forall|j: int|
                        0 <= j < i ==> #[trigger] opt_string_view(out@[j].value) == (if rows[j].date_label@.len()
                            == 0 {
                            None
                        } else {
                            Some(rows[j].date_label@)
                        }),
                    forall|j: int| 0 <= j < i ==> #[trigger] out@[j].status is None,
                decreases n - i,
            {
                let value = if items[i].date_label.unicode_len() == 0 {
                    None
                } else {
                    Some(items[i].date_label.clone())
                };
                out.push(Entry { key: title_or_placeholder(&items[i]), value, status: None });
                i = i + 1;
            }
            Body::Entries(EntriesData { items: out })
        },
        Shape::Timeline => {
            let mut events: Vec<TimelineEvent> = Vec::new();
            let mut i: usize = 0;
            while i < n
                invariant
                    n <= items@.len(),
                    rows =~= items@.take(n as int),
                    i <= n,
                    events@.len() == i,
                    forall|j: int| 0 <= j < i ==> #[trigger] events@[j].timestamp == spec_timestamp(rows[j]),
                    forall|j: int| 0 <= j < i ==> #[trigger] events@[j].title@ == spec_title(rows[j]),
                    forall|j: int|
                        0 <= j < i ==> #[trigger] opt_string_view(events@[j].detail) == spec_link_host(
                            rows[j],
                        ),
                    forall|j: int| 0 <= j < i ==> #[trigger] events@[j].status is None,
                decreases n - i,
            {
                let timestamp = match items[i].published {
                    Some(t) => t,
                    None => match items[i].updated {
                        Some(t) => t,
                        None => 0,
                    },
                };
                events.push(
                    TimelineEvent {
                        timestamp,
                        title: title_or_placeholder(&items[i]),
                        detail: link_host(&items[i]),
                        status: None,
                    },
                );
                i = i + 1;
            }
            Body::Timeline(TimelineData { events })
        },
        _ => {
            let mut out: Vec<LinkedLine> = Vec::new();
            let mut i: usize = 0;
            while i < n
                invariant
                    n <= items@.len(),
                    rows =~= items@.take(n as int),
                    i <= n,
                    out@.len() == i,
                    forall|j: int| 0 <= j < i ==> #[trigger] out@[j].text@ == spec_line(rows[j]),
                    forall|j: int| 0 <= j < i ==> #[trigger] opt_string_view(out@[j].url) == spec_link(rows[j]),
                decreases n - i,
            {
                out.push(LinkedLine { text: line_text(&items[i]), url: link_for(&items[i]) });
                i = i + 1;
            }
            Body::LinkedTextBlock(LinkedTextBlockData { items: out })
        },
    }
}

/// Card rows, one per entry of `rows` that has a downloaded-thumbnail slot.
pub open spec fn cards_ok(rows: Seq<FeedItem>, paths: Seq<Option<String>>, cards: Seq<ImageLinkedItem>) -> bool {
    let n = if paths.len() < rows.len() { paths.len() as int } else { rows.len() as int };
    &&& cards.len() == n
    &&& forall|i: int|
        0 <= i < n ==> #[trigger] cards[i].title@ == spec_title(rows[i]) && opt_string_view(
            cards[i].url,
        ) == spec_link(rows[i]) && cards[i].thumbnail_path == paths[i] && opt_string_view(
            cards[i].subtitle,
        ) == spec_subtitle(rows[i])
}

/// Card rows of the first `count` entries with the thumbnail files downloaded for them
/// (`None` where there is none).
pub fn image_linked_body(items: &[FeedItem], count: usize, paths: &Vec<Option<String>>) -> (b: Body)
    ensures
        b matches Body::ImageLinkedList(d) && cards_ok(first_entries(items@, count as int), paths@, d.items@),
{
    let m: usize = if count < items.len() { count } else { items.len() };
    let n: usize = if paths.len() < m { paths.len() } else { m };
    let ghost rows = first_entries(items@, count as int);
    assert(rows =~= items@.take(m as int));
    let mut out: Vec<ImageLinkedItem> = Vec::new();
    let mut i: usize = 0;
    while i < n
        invariant
            n <= m <= items@.len(),
            n <= paths@.len(),
            rows =~= items@.take(m as int),
            i <= n,
            out@.len() == i,
            forall|j: int|
                0 <= j < i ==> #[trigger] out@[j].title@ == spec_title(rows[j]) && opt_string_view(
                    out@[j].url,
                ) == spec_link(rows[j]) && out@[j].thumbnail_path == paths@[j] && opt_string_view(
                    out@[j].subtitle,
                ) == spec_subtitle(rows[j]),
        decreases n - i,
    {
        let path = match &paths[i] {
            Some(p) => Some(p.clone()),
            None => None,
        };
        out.push(
            ImageLinkedItem {
                title: title_or_placeholder(&items[i]),
                url: link_for(&items[i]),
                thumbnail_path: path,
                subtitle: subtitle_for(&items[i]),
            },
        );
        i = i + 1;
    }
    Body::ImageLinkedList(ImageLinkedListData { items: out })
}

} // verus!
