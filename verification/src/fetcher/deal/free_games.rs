//! `deal_free_games` — free games and loot offers across eight storefronts from the
//! LootScraper feeds. The host is fixed and `platform` / `kind` choose among closed sets,
//! so configuration cannot send the request elsewhere.

use vstd::prelude::*;
use vstd::string::*;

use crate::fetcher::github::common::{cache_key as keyed_cache_key, spec_cache_key};
use crate::fetcher::{spec_limit, limit_or, FetchContext, FetchError, OptionSchema, Safety};
use crate::payload::{Body, Status};
use crate::render::Shape;
use crate::samples;
use crate::text::{opt_str_view, opt_string_view};
use crate::text::{
    ascii_lower, ascii_upper, is_ascii_text, is_small_word, lemma_small_word_cases,
    lemma_trim_keeps_ascii, lowercase, lowercase_of, str_eq, trim, trim_str,
};

use crate::fetcher::feed::{link_for, spec_link, spec_thumbnail, thumbnail_url_for, FeedItem};
use crate::text::{
    chars_at, chars_between, chars_of, collapse_whitespace, contains_from, find_char, first_index,
    join, skip_ws_at, skip_ws_from, text_at, words,
};

use super::common::{DealRow, MAX_ROWS};

verus! {

/// The `deal_free_games` fetcher.
pub struct FreeGamesFetcher;

/// Feed host.
pub const FEED_BASE: &'static str = "https://feed.eikowagenknecht.com";

/// Widget options.
#[derive(Debug, Default, Clone)]
pub struct Options {
    pub platform: Option<String>,
    pub kind: Option<String>,
    pub count: Option<u32>,
}

/// Storefront to follow (`All` merges every one).
#[derive(Debug, Clone, Copy, PartialEq, Eq, Structural)]
pub enum Platform {
    All,
    Epic,
    Steam,
    Amazon,
    Gog,
    Humble,
    Itch,
    Apple,
    Google,
}

/// Full games or in-game loot.
#[derive(Debug, Clone, Copy, PartialEq, Eq, Structural)]
pub enum Kind {
    Game,
    Loot,
}

pub open spec fn spec_shapes() -> Seq<Shape> {
    seq![Shape::LinkedTextBlock, Shape::TextBlock, Shape::MarkdownTextBlock, Shape::Text, Shape::Entries, Shape::Bars, Shape::ImageLinkedList, Shape::Badge, Shape::Timeline]
}

impl FreeGamesFetcher {
    /// Catalog name.
    pub fn name(&self) -> (r: &'static str)
        ensures
            r@ == "deal_free_games"@,
    {
        "deal_free_games"
    }

    /// Trust class.
    pub fn safety(&self) -> (r: Safety)
        ensures
            r == Safety::Safe,
    {
        Safety::Safe
    }

    /// One-paragraph catalog description.
    pub fn description(&self) -> (r: &'static str)
        ensures
            r@ == "Free games and loot offers aggregated across Epic Games, Steam, Amazon Prime Gaming, GOG, Humble, itch.io, Apple App Store, and Google Play via the LootScraper feed. `platform = \"all\"` (default) merges every source; pick a specific platform to filter. `kind = \"loot\"` switches to the Twitch-drops / in-game-item variant (Amazon and Steam only)."@,
    {
        "Free games and loot offers aggregated across Epic Games, Steam, Amazon Prime Gaming, GOG, Humble, itch.io, Apple App Store, and Google Play via the LootScraper feed. `platform = \"all\"` (default) merges every source; pick a specific platform to filter. `kind = \"loot\"` switches to the Twitch-drops / in-game-item variant (Amazon and Steam only)."
    }

    /// Shapes this fetcher can produce.
    pub fn shapes(&self) -> (r: Vec<Shape>)
        ensures
            r@ == spec_shapes(),
    {
        let r = vec![Shape::LinkedTextBlock, Shape::TextBlock, Shape::MarkdownTextBlock, Shape::Text, Shape::Entries, Shape::Bars, Shape::ImageLinkedList, Shape::Badge, Shape::Timeline];
        assert(r@ =~= spec_shapes());
        r
    }

    /// Shape used when the widget names none.
    pub fn default_shape(&self) -> (r: Shape)
        ensures
            r == Shape::LinkedTextBlock,
    {
        Shape::LinkedTextBlock
    }

    /// Seconds between background refreshes.
    pub fn refresh_interval(&self) -> (r: u64)
        ensures
            r == 3600,
    {
        3600
    }

    /// Documented options.
    pub fn option_schemas(&self) -> (r: Vec<OptionSchema>)
        ensures
            r@.len() == 3,
            r@[0].name@ == "platform"@,
            r@[0].required == false,
            opt_str_view(r@[0].default) == Some("\"all\""@),
            r@[1].name@ == "kind"@,
            r@[1].required == false,
            opt_str_view(r@[1].default) == Some("\"game\""@),
            r@[2].name@ == "count"@,
            r@[2].required == false,
            opt_str_view(r@[2].default) == Some("10"@),
    {
        vec![
            OptionSchema {
                name: "platform",
                type_hint: "\"all\" | \"epic\" | \"steam\" | \"amazon\" | \"gog\" | \"humble\" | \"itch\" | \"apple\" | \"google\"",
                required: false,
                default: Some("\"all\""),
                description: "Storefront to subscribe to. `all` merges every platform via LootScraper's aggregate feed.",
            },
            OptionSchema {
                name: "kind",
                type_hint: "\"game\" | \"loot\"",
                required: false,
                default: Some("\"game\""),
                description: "`game` = full game giveaways; `loot` = in-game items / Twitch drops. Only `amazon` and `steam` expose a `loot` feed; other platforms reject it.",
            },
            OptionSchema {
                name: "count",
                type_hint: "integer (1..=20)",
                required: false,
                default: Some("10"),
                description: "Maximum number of offers to display.",
            },
        ]
    }

}


/// The configuration word of a platform.
pub open spec fn spec_config_value(p: Platform) -> Seq<char> {
    match p {
        Platform::All => "all"@,
        Platform::Epic => "epic"@,
        Platform::Steam => "steam"@,
        Platform::Amazon => "amazon"@,
        Platform::Gog => "gog"@,
        Platform::Humble => "humble"@,
        Platform::Itch => "itch"@,
        Platform::Apple => "apple"@,
        Platform::Google => "google"@,
    }
}

/// The feed code of a platform (none for the aggregate feed).
pub open spec fn spec_url_slug(p: Platform) -> Seq<char> {
    match p {
        Platform::All => Seq::empty(),
        _ => spec_config_value(p),
    }
}

/// The feed code of a kind.
pub open spec fn spec_kind_slug(k: Kind) -> Seq<char> {
    match k {
        Kind::Game => "game"@,
        Kind::Loot => "loot"@,
    }
}

/// The feed of a platform and kind: the aggregate feed for `All`.
pub open spec fn spec_feed_url(p: Platform, k: Kind) -> Seq<char> {
    if p == Platform::All {
        FEED_BASE@ + "/lootscraper.xml"@
    } else {
        FEED_BASE@ + "/lootscraper_"@ + spec_url_slug(p) + "_"@ + spec_kind_slug(k) + ".xml"@
    }
}

impl Platform {
    /// The configuration word.
    pub fn config_value(self) -> (s: &'static str)
        ensures
            s@ == spec_config_value(self),
    {
        match self {
            Platform::All => "all",
            Platform::Epic => "epic",
            Platform::Steam => "steam",
            Platform::Amazon => "amazon",
            Platform::Gog => "gog",
            Platform::Humble => "humble",
            Platform::Itch => "itch",
            Platform::Apple => "apple",
            Platform::Google => "google",
        }
    }

    /// The feed code.
    pub fn url_slug(self) -> (s: &'static str)
        ensures
            s@ == spec_url_slug(self),
    {
        match self {
            Platform::All => {
                proof {
                    reveal_strlit("");
                }
                let e = "";
                assert(e@ =~= Seq::<char>::empty());
                e
            },
            Platform::Epic => "epic",
            Platform::Steam => "steam",
            Platform::Amazon => "amazon",
            Platform::Gog => "gog",
            Platform::Humble => "humble",
            Platform::Itch => "itch",
            Platform::Apple => "apple",
            Platform::Google => "google",
        }
    }

    /// Only Amazon and Steam publish loot feeds.
    pub fn supports_loot(self) -> (r: bool)
        ensures
            r == (self == Platform::Amazon || self == Platform::Steam),
    {
        match self {
            Platform::Amazon | Platform::Steam => true,
            _ => false,
        }
    }

    /// The feed to read.
    pub fn feed_url(self, kind: Kind) -> (s: String)
        ensures
            s@ == spec_feed_url(self, kind),
    {
        let mut s = String::from_str(FEED_BASE);
        match self {
            Platform::All => {
                s.append("/lootscraper.xml");
            },
            _ => {
                s.append("/lootscraper_");
                s.append(self.url_slug());
                s.append("_");
                s.append(kind.url_slug());
                s.append(".xml");
            },
        }
        s
    }
}

impl Kind {
    /// The feed code.
    pub fn url_slug(self) -> (s: &'static str)
        ensures
            s@ == spec_kind_slug(self),
    {
        match self {
            Kind::Game => "game",
            Kind::Loot => "loot",
        }
    }
}

/// The platform a lowercase word names.
pub open spec fn platform_named(w: Seq<char>) -> Option<Platform> {
    if w == "all"@ { Some(Platform::All) }
    else if w == "epic"@ { Some(Platform::Epic) }
    else if w == "steam"@ { Some(Platform::Steam) }
    else if w == "amazon"@ { Some(Platform::Amazon) }
    else if w == "gog"@ { Some(Platform::Gog) }
    else if w == "humble"@ { Some(Platform::Humble) }
    else if w == "itch"@ { Some(Platform::Itch) }
    else if w == "apple"@ { Some(Platform::Apple) }
    else if w == "google"@ { Some(Platform::Google) }
    else { None }
}

/// What a lowercase platform word gives: the platform it names, else an error naming it.
pub open spec fn platform_word_ok(w: Seq<char>, r: Result<Platform, FetchError>) -> bool {
    match platform_named(w) {
        Some(p) => r == Ok::<Platform, FetchError>(p),
        None => r matches Err(FetchError::Failed(m)) && m@ == "deal_free_games: unknown platform `"@
            + w + "` (expected all/epic/steam/amazon/gog/humble/itch/apple/google)"@,
    }
}

/// What the option value `t` gives, where `lowered` is its trimmed text in lowercase:
/// `All` when it is blank, else what the lowered word names.
pub open spec fn platform_outcome(
    t: Seq<char>,
    lowered: Seq<char>,
    r: Result<Platform, FetchError>,
) -> bool {
    if trim(t).len() > 0 {
        platform_word_ok(lowered, r)
    } else {
        r == Ok::<Platform, FetchError>(Platform::All)
    }
}

/// The configured platform: `All` when unset or blank, else the trimmed word in lowercase;
/// any other word is an error naming it.
pub open spec fn platform_result_ok(raw: Option<Seq<char>>, r: Result<Platform, FetchError>) -> bool {
    match raw {
        Some(t) => platform_outcome(t, lowercase_of(trim(t)), r),
        None => r == Ok::<Platform, FetchError>(Platform::All),
    }
}

/// The platform a lowercase word names, or the error naming the word.
pub fn platform_from_word(w: &str) -> (r: Result<Platform, FetchError>)
    ensures
        platform_word_ok(w@, r),
{
    if str_eq(w, "all") { Ok(Platform::All) }
    else if str_eq(w, "epic") { Ok(Platform::Epic) }
    else if str_eq(w, "steam") { Ok(Platform::Steam) }
    else if str_eq(w, "amazon") { Ok(Platform::Amazon) }
    else if str_eq(w, "gog") { Ok(Platform::Gog) }
    else if str_eq(w, "humble") { Ok(Platform::Humble) }
    else if str_eq(w, "itch") { Ok(Platform::Itch) }
    else if str_eq(w, "apple") { Ok(Platform::Apple) }
    else if str_eq(w, "google") { Ok(Platform::Google) }
    else {
        let mut m = String::from_str("deal_free_games: unknown platform `");
        m.append(w);
        m.append("` (expected all/epic/steam/amazon/gog/humble/itch/apple/google)");
        Err(FetchError::Failed(m))
    }
}

/// Reads the `platform` option.
pub fn parse_platform(raw: Option<&str>) -> (r: Result<Platform, FetchError>)
    ensures
        platform_result_ok(opt_str_view(raw), r),
        raw matches Some(t) ==> (is_ascii_text(t@) ==> platform_outcome(t@, ascii_lower(trim(t@)), r)),
{
    match raw {
        None => Ok(Platform::All),
        Some(s) => {
            let t = trim_str(s);
            if t.as_str().unicode_len() == 0 {
                return Ok(Platform::All);
            }
            proof {
                if is_ascii_text(s@) {
                    lemma_trim_keeps_ascii(s@);
                }
            }
            let w = lowercase(t.as_str());
            platform_from_word(w.as_str())
        },
    }
}

/// Each platform's configuration word reads back as that platform, both as it stands and
/// in capitals between two spaces.
pub proof fn lemma_platform_round_trip(p: Platform, t: Seq<char>, r: Result<Platform, FetchError>)
    requires
        t == spec_config_value(p) || t == seq![' '] + ascii_upper(spec_config_value(p)) + seq![' '],
        platform_outcome(t, ascii_lower(trim(t)), r),
    ensures
        is_ascii_text(t),
        r == Ok::<Platform, FetchError>(p),
{
    reveal_strlit("all");
    reveal_strlit("epic");
    reveal_strlit("steam");
    reveal_strlit("amazon");
    reveal_strlit("gog");
    reveal_strlit("humble");
    reveal_strlit("itch");
    reveal_strlit("apple");
    reveal_strlit("google");
    let w = spec_config_value(p);
    assert(is_small_word(w));
    lemma_small_word_cases(w);
    assert(platform_named(w) == Some(p));
}

/// What a lowercase kind word gives: `game` or `loot`, else an error naming it.
pub open spec fn kind_word_ok(w: Seq<char>, r: Result<Kind, FetchError>) -> bool {
    if w == "game"@ {
        r == Ok::<Kind, FetchError>(Kind::Game)
    } else if w == "loot"@ {
        r == Ok::<Kind, FetchError>(Kind::Loot)
    } else {
        r matches Err(FetchError::Failed(m)) && m@ == "deal_free_games: unknown kind `"@ + w
            + "` (expected game/loot)"@
    }
}

/// What the option value `t` gives, where `lowered` is its trimmed text in lowercase:
/// `Game` when it is blank, else what the lowered word names.
pub open spec fn kind_outcome(t: Seq<char>, lowered: Seq<char>, r: Result<Kind, FetchError>) -> bool {
    if trim(t).len() > 0 {
        kind_word_ok(lowered, r)
    } else {
        r == Ok::<Kind, FetchError>(Kind::Game)
    }
}

/// The configured kind: `Game` when unset or blank, else `game` or `loot` in any case; any
/// other word is an error naming it.
pub open spec fn kind_result_ok(raw: Option<Seq<char>>, r: Result<Kind, FetchError>) -> bool {
    match raw {
        Some(t) => kind_outcome(t, lowercase_of(trim(t)), r),
        None => r == Ok::<Kind, FetchError>(Kind::Game),
    }
}

/// The kind a lowercase word names, or the error naming the word.
pub fn kind_from_word(w: &str) -> (r: Result<Kind, FetchError>)
    ensures
        kind_word_ok(w@, r),
{
    if str_eq(w, "game") {
        Ok(Kind::Game)
    } else if str_eq(w, "loot") {
        Ok(Kind::Loot)
    } else {
        let mut m = String::from_str("deal_free_games: unknown kind `");
        m.append(w);
        m.append("` (expected game/loot)");
        Err(FetchError::Failed(m))
    }
}

/// Reads the `kind` option.
pub fn parse_kind(raw: Option<&str>) -> (r: Result<Kind, FetchError>)
    ensures
        kind_result_ok(opt_str_view(raw), r),
        raw matches Some(t) ==> (is_ascii_text(t@) ==> kind_outcome(t@, ascii_lower(trim(t@)), r)),
{
    match raw {
        None => Ok(Kind::Game),
        Some(s) => {
            let t = trim_str(s);
            if t.as_str().unicode_len() == 0 {
                return Ok(Kind::Game);
            }
            proof {
                if is_ascii_text(s@) {
                    lemma_trim_keeps_ascii(s@);
                }
            }
            let w = lowercase(t.as_str());
            kind_from_word(w.as_str())
        },
    }
}

/// Loot is only offered on Amazon and Steam; asking another platform for it is an error
/// naming that platform.
pub fn check_kind(platform: Platform, kind: Kind) -> (r: Result<(), FetchError>)
    ensures
        (kind == Kind::Loot && !(platform == Platform::Amazon || platform == Platform::Steam))
            <==> r is Err,
        r matches Err(FetchError::Failed(m)) ==> m@
            == "deal_free_games: `kind = \"loot\"` is only supported on `amazon` and `steam` (got `"@
            + spec_config_value(platform) + "`)"@,
{
    if kind == Kind::Loot && !platform.supports_loot() {
        let mut m = String::from_str(
            "deal_free_games: `kind = \"loot\"` is only supported on `amazon` and `steam` (got `",
        );
        m.append(platform.config_value());
        m.append("`)");
        Err(FetchError::Failed(m))
    } else {
        Ok(())
    }
}

/// Offers shown: the configured count (default 10) within 1..=20.
pub fn offer_count(opts: &Options) -> (n: usize)
    ensures
        n == spec_limit(opts.count, 10, 1, MAX_ROWS as u32),
{
    limit_or(opts.count, 10, 1, MAX_ROWS as u32) as usize
}

/// The store and title of a feed title shaped `Store (Game) - Title` or
/// `Store (Loot) - Title`, both trimmed. The store is everything before the first `(`
/// (at least one character), and that `(` must open `(Game)` or `(Loot)`; then come
/// optional whitespace, a `-`, and at least one more character. The title is everything
/// after the `-`; past its leading whitespace it holds no line break (when it is all
/// whitespace, its last character is not one).
pub open spec fn store_title_parts(s: Seq<char>) -> Option<(Seq<char>, Seq<char>)> {
    match first_index(s, '(') {
        Some(p) => {
            let d = skip_ws_from(s, p + 6);
            let t = skip_ws_from(s, d + 1);
            if p >= 1 && (text_at(s, p, "(Game)"@) || text_at(s, p, "(Loot)"@)) && d < s.len()
                && s[d] == '-' && d + 1 < s.len() && (if t < s.len() {
                !s.skip(t).contains('\n')
            } else {
                s.last() != '\n'
            }) {
                Some((trim(s.take(p)), trim(s.skip(d + 1))))
            } else {
                None
            }
        },
        None => None,
    }
}

/// Reads the store and title out of a feed title, as `store_title_parts` describes.
pub fn store_title_split(raw: &str) -> (r: Option<(String, String)>)
    ensures
        match r {
            Some(p) => store_title_parts(raw@) == Some((p.0@, p.1@)),
            None => store_title_parts(raw@) is None,
        },
{
    let cs = chars_of(raw);
    let n = cs.len();
    let p = match find_char(&cs, '(') {
        Some(p) => p,
        None => return None,
    };
    if p < 1 || !(chars_at(&cs, p, "(Game)") || chars_at(&cs, p, "(Loot)")) {
        return None;
    }
    proof {
        reveal_strlit("(Game)");
        reveal_strlit("(Loot)");
    }
    let d = skip_ws_at(&cs, p + 6);
    if d >= n || cs[d] != '-' || d + 1 >= n {
        return None;
    }
    let t = skip_ws_at(&cs, d + 1);
    let tail_ok = if t < n {
        !contains_from(&cs, t, '\n')
    } else {
        cs[n - 1] != '\n'
    };
    if !tail_ok {
        return None;
    }
    let store_raw = chars_between(&cs, 0, p);
    let title_raw = chars_between(&cs, d + 1, n);
    assert(cs@.subrange(0, p as int) =~= cs@.take(p as int));
    assert(cs@.subrange(d + 1, n as int) =~= cs@.skip(d + 1));
    Some((trim_str(store_raw.as_str()), trim_str(title_raw.as_str())))
}

/// Store and title of a feed title: the parts when it is shaped `Store (Game) - Title`,
/// else no store and the whole text.
pub open spec fn spec_split_store_and_title(raw: Seq<char>) -> (Option<Seq<char>>, Seq<char>) {
    match store_title_parts(raw) {
        Some((s, t)) => (Some(s), t),
        None => (None, raw),
    }
}

/// Splits `Store (Game) - Title`.
pub fn split_store_and_title(raw: &str) -> (r: (Option<String>, String))
    ensures
        (opt_string_view(r.0), r.1@) == spec_split_store_and_title(raw@),
{
    match store_title_split(raw) {
        Some((store, title)) => (Some(store), title),
        None => (None, String::from_str(raw)),
    }
}

/// The row an entry becomes.
pub open spec fn offer_row_ok(entry: FeedItem, r: DealRow) -> bool {
    &&& ({
            let raw = match entry.title {
                Some(t) => join(words(t@), " "@),
                None => Seq::empty(),
            };
            let (store, title) = spec_split_store_and_title(raw);
            &&& opt_string_view(r.store) == store
            &&& r.title@ == if title.len() == 0 { "(unnamed offer)"@ } else { title }
        })
    &&& r.link@ == (match spec_link(entry) {
            Some(l) => l,
            None => "https://example.com/"@
        })
    &&& opt_string_view(r.image_url) == spec_thumbnail(entry)
    &&& opt_string_view(r.sale_price) == Some("Free"@)
    &&& r.original_price is None
    &&& r.discount_pct == Some(100u32)
    &&& r.published == (match entry.published {
            Some(t) => Some(t),
            None => entry.updated
        })
}

/// An offer as a row: free, 100% off, split into store and title (`(unnamed offer)` when
/// the title is empty), linked to the entry or a placeholder.
pub fn entry_to_row(entry: &FeedItem) -> (r: DealRow)
    ensures
        offer_row_ok(*entry, r),
{
    let raw = match &entry.title {
        Some(t) => collapse_whitespace(t.as_str()),
        None => String::new(),
    };
    let (store, title) = split_store_and_title(raw.as_str());
    let title = if title.as_str().unicode_len() == 0 {
        String::from_str("(unnamed offer)")
    } else {
        title
    };
    let link = match link_for(entry) {
        Some(l) => l,
        None => String::from_str("https://example.com/"),
    };
    DealRow {
        title,
        image_url: thumbnail_url_for(entry),
        sale_price: Some(String::from_str("Free")),
        original_price: None,
        discount_pct: Some(100),
        store,
        link,
        published: match entry.published {
            Some(t) => Some(t),
            None => entry.updated,
        },
    }
}

impl FreeGamesFetcher {
    /// Cache key: the context plus the serialized options.
    pub fn cache_key(&self, ctx: &FetchContext, options_text: &str) -> (k: String)
        ensures
            k@ == spec_cache_key("deal_free_games"@, *ctx, options_text@),
    {
        keyed_cache_key("deal_free_games", ctx, options_text)
    }
}

impl FreeGamesFetcher {
    /// Canned body per supported shape (cards need downloads, so they have none).
    pub fn sample_body(&self, shape: Shape) -> (r: Option<Body>)
        ensures
            r is Some <==> (shape == Shape::LinkedTextBlock || shape == Shape::TextBlock || shape
                == Shape::MarkdownTextBlock || shape == Shape::Text || shape == Shape::Entries
                || shape == Shape::Bars || shape == Shape::Badge || shape == Shape::Timeline),
            shape == Shape::Badge ==> (r matches Some(Body::Badge(d)) && d.status == Status::Okay
                && d.label@ == "free this week"@),
            r matches Some(b) ==> crate::payload::spec_shape_of(b) == shape,
            shape == Shape::LinkedTextBlock ==> (r matches Some(b) && samples::links_are(
                b,
                seq![
                    (
                        "[Epic Games] Subnautica  Free (100% off)"@,
                        Some("https://store.epicgames.com/p/subnautica"@),
                    ),
                    (
                        "[Amazon Prime] Star Wars Battlefront II  Free (100% off)"@,
                        Some("https://gaming.amazon.com/loot/star-wars-battlefront-2"@),
                    ),
                    (
                        "[GOG] Galactic Civilizations III  Free (100% off)"@,
                        Some("https://www.gog.com/giveaway"@),
                    ),
                ],
            )),
            shape == Shape::TextBlock ==> (r matches Some(b) && samples::lines_are(
                b,
                seq![
                    "[Epic Games] Subnautica  Free (100% off)"@,
                    "[Amazon Prime] Star Wars Battlefront II  Free (100% off)"@,
                    "[GOG] Galactic Civilizations III  Free (100% off)"@,
                ],
            )),
            shape == Shape::MarkdownTextBlock ==> (r matches Some(Body::MarkdownTextBlock(d))
                && d.value@
                == "- [[Epic Games] Subnautica  Free (100% off)](https://store.epicgames.com/p/subnautica)\n- [[Amazon Prime] Star Wars Battlefront II  Free (100% off)](https://gaming.amazon.com/loot/star-wars-battlefront-2)"@),
            shape == Shape::Text ==> (r matches Some(Body::Text(d)) && d.value@
                == "[Epic Games] Subnautica  Free (100% off)"@),
            shape == Shape::Entries ==> (r matches Some(b) && samples::entries_are(
                b,
                seq![
                    ("Subnautica"@, "Free (100% off)"@),
                    ("Star Wars Battlefront II"@, "Free (100% off)"@),
                    ("Galactic Civilizations III"@, "Free (100% off)"@),
                ],
            )),
            shape == Shape::Bars ==> (r matches Some(b) && samples::bars_are(
                b,
                seq![
                    ("Subnautica"@, 100u64),
                    ("Star Wars Battlefront II"@, 100u64),
                    ("Galactic Civilizations III"@, 100u64),
                ],
            )),
            shape == Shape::Timeline ==> (r matches Some(b) && samples::events_are(
                b,
                seq![
                    (1_745_625_600i64, "Subnautica"@, Some("Epic Games · Free · 100% off"@)),
                    (
                        1_745_539_200i64,
                        "Star Wars Battlefront II"@,
                        Some("Amazon Prime · Free · 100% off"@),
                    ),
                ],
            )),
    {
        match shape {
            Shape::LinkedTextBlock => Some(
                samples::linked_text_block(
                    &[
                        (
                            "[Epic Games] Subnautica  Free (100% off)",
                            Some("https://store.epicgames.com/p/subnautica"),
                        ),
                        (
                            "[Amazon Prime] Star Wars Battlefront II  Free (100% off)",
                            Some("https://gaming.amazon.com/loot/star-wars-battlefront-2"),
                        ),
                        (
                            "[GOG] Galactic Civilizations III  Free (100% off)",
                            Some("https://www.gog.com/giveaway"),
                        ),
                    ],
                ),
            ),
            Shape::TextBlock => Some(
                samples::text_block(
                    &[
                        "[Epic Games] Subnautica  Free (100% off)",
                        "[Amazon Prime] Star Wars Battlefront II  Free (100% off)",
                        "[GOG] Galactic Civilizations III  Free (100% off)",
                    ],
                ),
            ),
            Shape::MarkdownTextBlock => Some(
                samples::markdown(
                    "- [[Epic Games] Subnautica  Free (100% off)](https://store.epicgames.com/p/subnautica)\n- [[Amazon Prime] Star Wars Battlefront II  Free (100% off)](https://gaming.amazon.com/loot/star-wars-battlefront-2)",
                ),
            ),
            Shape::Text => Some(samples::text("[Epic Games] Subnautica  Free (100% off)")),
            Shape::Entries => Some(
                samples::entries(
                    &[
                        ("Subnautica", "Free (100% off)"),
                        ("Star Wars Battlefront II", "Free (100% off)"),
                        ("Galactic Civilizations III", "Free (100% off)"),
                    ],
                ),
            ),
            Shape::Bars => Some(
                samples::bars(
                    &[
                        ("Subnautica", 100),
                        ("Star Wars Battlefront II", 100),
                        ("Galactic Civilizations III", 100),
                    ],
                ),
            ),
            Shape::Badge => Some(samples::badge(Status::Okay, "free this week")),
            Shape::Timeline => Some(
                samples::timeline(
                    &[
                        (1_745_625_600, "Subnautica", Some("Epic Games · Free · 100% off")),
                        (
                            1_745_539_200,
                            "Star Wars Battlefront II",
                            Some("Amazon Prime · Free · 100% off"),
                        ),
                    ],
                ),
            ),
            _ => None,
        }
    }
}

/// Rows of the first `count` offers of the feed.
pub fn offer_rows(items: &[FeedItem], count: usize) -> (rows: Vec<DealRow>)
    ensures
        rows@.len() == (if count < items@.len() { count as int } else { items@.len() as int }),
        forall|i: int| 0 <= i < rows@.len() ==> offer_row_ok(items@[i], #[trigger] rows@[i]),
{
    let n: usize = if count < items.len() { count } else { items.len() };
    let mut rows: Vec<DealRow> = Vec::new();
    let mut i: usize = 0;
    while i < n
        invariant
            n <= items@.len(),
            i <= n,
            rows@.len() == i,
            forall|j: int| 0 <= j < i ==> offer_row_ok(items@[j], #[trigger] rows@[j]),
        decreases n - i,
    {
        rows.push(entry_to_row(&items[i]));
        i = i + 1;
    }
    rows
}

} // verus!
