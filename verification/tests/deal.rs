use splashboard::fetcher::deal::common::{
    badge_body, bars_body, body_for_shape, entries_body, markdown_body, status_for_pct, text_body,
    timeline_body, top_row, truncate, DealRow, LABEL_MAX_CHARS,
};
use splashboard::fetcher::deal::fetchers;
use splashboard::fetcher::deal::free_games::{
    entry_to_row as free_entry_to_row, kind_from_word, parse_kind, parse_platform,
    platform_from_word, split_store_and_title, FreeGamesFetcher, Kind, Platform, FEED_BASE,
};
use splashboard::fetcher::deal::games::{build_url, store_name, GamesFetcher};
use splashboard::fetcher::deal::steam_daily::{
    entry_to_row as steam_entry_to_row, parse_title, SteamDailyFetcher,
};
use splashboard::fetcher::feed::{FeedItem, FeedLink};
use splashboard::fetcher::{FetchContext, FetchError, Safety};
use splashboard::payload::{Body, Status};
use splashboard::render::Shape;

const ALL_PLATFORMS: [Platform; 9] = [
    Platform::All,
    Platform::Epic,
    Platform::Steam,
    Platform::Amazon,
    Platform::Gog,
    Platform::Humble,
    Platform::Itch,
    Platform::Apple,
    Platform::Google,
];

#[test]
fn badge_empty_rows_reports_no_deals() {
    let Body::Badge(data) = badge_body(&[]) else {
        panic!("expected badge");
    };
    assert!(data.label.contains("no deals"));
}

#[test]
fn truncate_appends_ellipsis_when_over_limit() {
    let long = "x".repeat(LABEL_MAX_CHARS + 5);
    let t = truncate(&long, LABEL_MAX_CHARS);
    assert_eq!(t.chars().count(), LABEL_MAX_CHARS);
    assert!(t.ends_with('…'));
}

#[test]
fn parse_platform_defaults_to_all() {
    assert_eq!(parse_platform(None).unwrap(), Platform::All);
    assert_eq!(parse_platform(Some("  ")).unwrap(), Platform::All);
}

#[test]
fn parse_platform_case_insensitive() {
    assert_eq!(parse_platform(Some("Epic")).unwrap(), Platform::Epic);
    assert_eq!(parse_platform(Some("STEAM")).unwrap(), Platform::Steam);
}

#[test]
fn parse_platform_rejects_unknown() {
    let err = parse_platform(Some("origin")).unwrap_err();
    let FetchError::Failed(msg) = err;
    assert!(msg.contains("origin"));
    assert!(msg.contains("expected"));
}

#[test]
fn parse_kind_defaults_to_game_and_rejects_unknown() {
    assert_eq!(parse_kind(None).unwrap(), Kind::Game);
    assert_eq!(parse_kind(Some("loot")).unwrap(), Kind::Loot);
    assert!(parse_kind(Some("bundle")).is_err());
}

#[test]
fn feed_url_for_specific_platform_includes_kind_slug() {
    assert_eq!(
        Platform::Epic.feed_url(Kind::Game),
        format!("{FEED_BASE}/lootscraper_epic_game.xml")
    );
    assert_eq!(
        Platform::Amazon.feed_url(Kind::Loot),
        format!("{FEED_BASE}/lootscraper_amazon_loot.xml")
    );
}

#[test]
fn supports_loot_is_amazon_and_steam_only() {
    assert!(Platform::Amazon.supports_loot());
    assert!(Platform::Steam.supports_loot());
    for p in [
        Platform::Epic,
        Platform::Gog,
        Platform::Humble,
        Platform::Itch,
        Platform::Apple,
        Platform::Google,
    ] {
        assert!(!p.supports_loot(), "{:?} should not support loot", p);
    }
}

#[test]
fn free_games_fetcher_exposes_safety_safe_and_default_linked_shape() {
    let f = FreeGamesFetcher;
    assert_eq!(f.name(), "deal_free_games");
    assert_eq!(f.safety(), Safety::Safe);
    assert_eq!(f.default_shape(), Shape::LinkedTextBlock);
    assert_eq!(
        f.shapes(),
        vec![
            Shape::LinkedTextBlock,
            Shape::TextBlock,
            Shape::MarkdownTextBlock,
            Shape::Text,
            Shape::Entries,
            Shape::Bars,
            Shape::ImageLinkedList,
            Shape::Badge,
            Shape::Timeline,
        ]
    );
}

#[test]
fn config_value_is_a_distinct_lowercase_token_for_every_platform() {
    let tokens: Vec<&str> = ALL_PLATFORMS.iter().map(|p| p.config_value()).collect();
    assert_eq!(
        tokens,
        [
            "all", "epic", "steam", "amazon", "gog", "humble", "itch", "apple", "google"
        ]
    );
}

#[test]
fn url_slug_blanks_the_aggregate_feed_and_codes_every_storefront() {
    assert_eq!(Platform::All.url_slug(), "");
    let coded: Vec<&str> = ALL_PLATFORMS.iter().skip(1).map(|p| p.url_slug()).collect();
    assert_eq!(
        coded,
        [
            "epic", "steam", "amazon", "gog", "humble", "itch", "apple", "google"
        ]
    );
}

#[test]
fn parse_platform_accepts_every_known_storefront() {
    for platform in ALL_PLATFORMS {
        let parsed = parse_platform(Some(platform.config_value())).unwrap();
        assert_eq!(parsed, platform);
    }
    // The matcher lowercases first, so a mixed-case storefront still resolves.
    assert_eq!(parse_platform(Some("GoG")).unwrap(), Platform::Gog);
}

#[test]
fn parse_kind_accepts_the_explicit_game_keyword() {
    assert_eq!(parse_kind(Some("game")).unwrap(), Kind::Game);
    assert_eq!(parse_kind(Some(" GAME ")).unwrap(), Kind::Game);
}

#[test]
fn build_url_emits_default_params() {
    let url = build_url(50, 10, None);
    assert!(url.contains("sortBy=Savings"));
    assert!(url.contains("onSale=1"));
    assert!(url.contains("pageSize=10"));
    assert!(url.contains("minDiscount=50"));
    assert!(!url.contains("storeID="));
}

#[test]
fn build_url_appends_store_filter_csv() {
    let url = build_url(40, 5, Some(&[1, 7, 25]));
    assert!(url.contains("storeID=1,7,25"));
}

#[test]
fn build_url_drops_min_discount_when_zero() {
    let url = build_url(0, 5, None);
    assert!(!url.contains("minDiscount"));
}

#[test]
fn store_name_falls_back_for_unknown_ids() {
    assert_eq!(store_name("1"), "Steam");
    assert_eq!(store_name("25"), "Epic Games Store");
    assert_eq!(store_name("999"), "Other store");
}

#[test]
fn games_fetcher_exposes_safety_safe_and_default_linked_shape() {
    let f = GamesFetcher;
    assert_eq!(f.name(), "deal_games");
    assert_eq!(f.safety(), Safety::Safe);
    assert_eq!(f.default_shape(), Shape::LinkedTextBlock);
}

#[test]
fn games_sample_body_covers_every_supported_shape() {
    let f = GamesFetcher;
    for shape in [
        Shape::LinkedTextBlock,
        Shape::TextBlock,
        Shape::MarkdownTextBlock,
        Shape::Text,
        Shape::Entries,
        Shape::Bars,
        Shape::Badge,
        Shape::Timeline,
    ] {
        assert!(
            f.sample_body(shape).is_some(),
            "sample missing for {shape:?}"
        );
    }
    assert!(f.sample_body(Shape::ImageLinkedList).is_none());
    assert!(f.sample_body(Shape::Heatmap).is_none());
}

#[test]
fn store_name_maps_every_known_id() {
    let cases = [
        ("2", "GamersGate"),
        ("3", "GreenManGaming"),
        ("4", "Amazon"),
        ("5", "GameStop"),
        ("7", "GOG"),
        ("8", "Origin"),
        ("11", "Humble Store"),
        ("13", "Ubisoft Store"),
        ("15", "Fanatical"),
        ("21", "WinGameStore"),
        ("23", "GameBillet"),
        ("24", "Voidu"),
        ("27", "Gamesplanet"),
        ("29", "2Game"),
        ("30", "IndieGala"),
        ("31", "Blizzard Shop"),
        ("33", "DLGamer"),
    ];
    for (id, name) in cases {
        assert_eq!(store_name(id), name, "store id {id}");
    }
}

#[test]
fn fetchers_entry_point_registers_the_batch_under_deal_prefix() {
    let names: Vec<String> = fetchers().iter().map(|f| f.name().to_string()).collect();
    assert!(names.contains(&"deal_free_games".to_string()));
    assert!(names.contains(&"deal_steam_daily".to_string()));
    assert!(names.contains(&"deal_games".to_string()));
    for name in &names {
        assert!(
            name.starts_with("deal_"),
            "{name} must use the `deal_` family prefix"
        );
    }
}

#[test]
fn fetcher_exposes_safety_safe_and_steam_store_attribution() {
    let f = SteamDailyFetcher;
    assert_eq!(f.name(), "deal_steam_daily");
    assert_eq!(f.safety(), Safety::Safe);
    assert_eq!(f.default_shape(), Shape::LinkedTextBlock);
}

// ---- further cases of the library's own rules ----

fn row(title: &str, pct: Option<u32>) -> DealRow {
    DealRow {
        title: title.into(),
        image_url: None,
        sale_price: None,
        original_price: None,
        discount_pct: pct,
        store: None,
        link: "https://example.com".into(),
        published: None,
    }
}

#[test]
fn truncate_keeps_short_labels_untouched() {
    assert_eq!(truncate("short", LABEL_MAX_CHARS), "short");
    let exact = "y".repeat(LABEL_MAX_CHARS);
    assert_eq!(truncate(&exact, LABEL_MAX_CHARS), exact);
}

#[test]
fn status_for_pct_bands() {
    assert_eq!(status_for_pct(100), Status::Okay);
    assert_eq!(status_for_pct(50), Status::Okay);
    assert_eq!(status_for_pct(49), Status::Warn);
    assert_eq!(status_for_pct(0), Status::Warn);
}

#[test]
fn top_row_picks_the_largest_saving() {
    let rows = vec![row("a", Some(10)), row("b", Some(90)), row("c", None)];
    assert_eq!(top_row(&rows), Some(1));
    let tied = vec![row("a", Some(90)), row("b", Some(90))];
    assert_eq!(top_row(&tied), Some(1));
    assert_eq!(top_row(&[]), None);
}

#[test]
fn body_for_shape_has_no_heatmap() {
    let rows = vec![row("a", Some(10))];
    assert!(body_for_shape(&rows, Shape::Heatmap).is_none());
    assert!(body_for_shape(&rows, Shape::Badge).is_some());
}

#[test]
fn split_store_and_title_reads_the_store_prefix() {
    let (store, title) = split_store_and_title("Epic Games (Game) - Death Stranding");
    assert_eq!(store.as_deref(), Some("Epic Games"));
    assert_eq!(title, "Death Stranding");
    let (store, title) = split_store_and_title("Plain title");
    assert_eq!(store, None);
    assert_eq!(title, "Plain title");
}

#[test]
fn parse_title_reads_the_discount_suffix() {
    let (title, pct) = parse_title("Daily Deal - Hades, 50% Off!");
    assert_eq!(title, "Hades");
    assert_eq!(pct, Some(50));
    let (title, pct) = parse_title("Weekend Deal - Portal 2");
    assert_eq!(title, "Portal 2");
    assert_eq!(pct, None);
    let (title, pct) = parse_title("no prefix here");
    assert_eq!(title, "no prefix here");
    assert_eq!(pct, None);
}

// ---- rows, labels and bodies of the shared deal renderer ----

fn priced_row(title: &str, pct: Option<u32>, store: Option<&str>) -> DealRow {
    DealRow {
        title: title.into(),
        image_url: None,
        sale_price: pct.map(|_| "$4.99".into()),
        original_price: pct.map(|_| "$9.99".into()),
        discount_pct: pct,
        store: store.map(str::to_string),
        link: "https://example.com/deal".into(),
        published: None,
    }
}

#[test]
fn label_omits_missing_fields() {
    let bare = priced_row("Bare", None, None);
    assert_eq!(bare.label(), "Bare");
}

#[test]
fn label_with_full_pricing_includes_all_pieces() {
    let r = priced_row("Half Life", Some(50), None);
    assert!(r.label().contains("Half Life"));
    assert!(r.label().contains("$4.99"));
    assert!(r.label().contains("50% off"));
    assert!(r.label().contains("$9.99"));
}

#[test]
fn label_with_store_prefixes_when_known() {
    let r = priced_row("X", Some(40), Some("Steam"));
    assert!(r.label_with_store().starts_with("[Steam]"));
}

#[test]
fn entries_body_carries_discount_status() {
    let rows = vec![priced_row("A", Some(80), Some("Steam")), priced_row("B", Some(20), None)];
    let Body::Entries(data) = entries_body(&rows) else {
        panic!("expected entries");
    };
    assert_eq!(data.items[0].status, Some(Status::Okay));
    assert_eq!(data.items[1].status, Some(Status::Warn));
}

#[test]
fn bars_body_sorts_descending_by_discount() {
    let rows = vec![priced_row("low", Some(20), None), priced_row("high", Some(80), None)];
    let Body::Bars(data) = bars_body(&rows) else {
        panic!("expected bars");
    };
    assert_eq!(data.bars[0].label, "high");
    assert_eq!(data.bars[0].value, 80);
}

#[test]
fn badge_flags_free_with_dedicated_label() {
    let rows = vec![priced_row("g", Some(100), None)];
    let Body::Badge(data) = badge_body(&rows) else {
        panic!("expected badge");
    };
    assert_eq!(data.status, Status::Okay);
    assert!(data.label.contains("free"));
}

#[test]
fn badge_warns_when_only_small_discounts_present() {
    let rows = vec![priced_row("g", Some(10), None)];
    let Body::Badge(data) = badge_body(&rows) else {
        panic!("expected badge");
    };
    assert_eq!(data.status, Status::Warn);
}

#[test]
fn text_body_picks_largest_discount_as_headline() {
    let rows = vec![priced_row("small", Some(10), None), priced_row("big", Some(70), None)];
    let Body::Text(data) = text_body(&rows) else {
        panic!("expected text");
    };
    assert!(data.value.contains("big"));
}

#[test]
fn timeline_uses_publish_timestamp() {
    let mut r = priced_row("g", Some(50), Some("Epic"));
    r.published = Some(unix(2026, 5, 1, 12));
    let Body::Timeline(data) = timeline_body(&[r]) else {
        panic!("expected timeline");
    };
    assert!(data.events[0].timestamp > 0);
    assert!(data.events[0].detail.as_ref().unwrap().contains("Epic"));
}

#[test]
fn markdown_body_emits_bullet_list_with_links() {
    let r = priced_row("g", Some(60), None);
    let Body::MarkdownTextBlock(data) = markdown_body(&[r]) else {
        panic!("expected markdown");
    };
    assert!(data.value.starts_with("- ["));
    assert!(data.value.contains("(https://example.com/deal)"));
}

#[test]
fn body_for_shape_returns_none_for_unsupported_shapes() {
    assert!(body_for_shape(&[], Shape::Heatmap).is_none());
    assert!(body_for_shape(&[], Shape::Calendar).is_none());
    assert!(body_for_shape(&[], Shape::Ratio).is_none());
}

// ---- free-games feed rows ----

fn unix(y: i32, m: u32, d: u32, h: u32) -> i64 {
    chrono::TimeZone::with_ymd_and_hms(&chrono::Utc, y, m, d, h, 0, 0)
        .unwrap()
        .timestamp()
}

fn options_text(src: &str) -> String {
    toml::to_string(&toml::from_str::<toml::Value>(src).unwrap()).unwrap()
}

fn feed_entry(title: Option<&str>, href: Option<&str>) -> FeedItem {
    FeedItem {
        title: title.map(str::to_string),
        links: href
            .map(|h| {
                vec![FeedLink {
                    href: h.into(),
                    rel: None,
                }]
            })
            .unwrap_or_default(),
        published: None,
        updated: None,
        date_label: String::new(),
        thumbnails: Vec::new(),
        media_urls: Vec::new(),
        content_body: None,
        summary: None,
    }
}

#[test]
fn split_store_extracts_prefix_when_present() {
    let (store, title) = split_store_and_title("Amazon Prime (Game) - Captain Blood");
    assert_eq!(store.as_deref(), Some("Amazon Prime"));
    assert_eq!(title, "Captain Blood");
}

#[test]
fn split_store_handles_loot_variant() {
    let (store, title) = split_store_and_title("Steam (Loot) - Some Cosmetic");
    assert_eq!(store.as_deref(), Some("Steam"));
    assert_eq!(title, "Some Cosmetic");
}

#[test]
fn split_store_falls_back_for_unrecognised_titles() {
    let (store, title) = split_store_and_title("just a title");
    assert!(store.is_none());
    assert_eq!(title, "just a title");
}

#[test]
fn feed_url_for_all_uses_aggregate_endpoint() {
    let url = Platform::All.feed_url(Kind::Game);
    assert_eq!(url, format!("{FEED_BASE}/lootscraper.xml"));
}

#[test]
fn feed_url_for_every_non_aggregate_platform_embeds_its_slug() {
    for platform in ALL_PLATFORMS.iter().skip(1).copied() {
        let url = platform.feed_url(Kind::Game);
        assert_eq!(
            url,
            format!("{FEED_BASE}/lootscraper_{}_game.xml", platform.url_slug())
        );
    }
}

#[test]
fn free_games_sample_body_covers_every_supported_shape() {
    let f = FreeGamesFetcher;
    for shape in [
        Shape::LinkedTextBlock,
        Shape::TextBlock,
        Shape::MarkdownTextBlock,
        Shape::Text,
        Shape::Entries,
        Shape::Bars,
        Shape::Badge,
        Shape::Timeline,
    ] {
        assert!(f.sample_body(shape).is_some(), "sample missing for {shape:?}");
    }
    assert!(f.sample_body(Shape::ImageLinkedList).is_none());
    assert!(f.sample_body(Shape::Heatmap).is_none());
}

#[test]
fn cache_key_varies_with_platform_option() {
    let f = FreeGamesFetcher;
    let ctx = FetchContext::default();
    let a = f.cache_key(&ctx, &options_text("platform = \"epic\""));
    let b = f.cache_key(&ctx, &options_text("platform = \"steam\""));
    assert_ne!(a, b);
}

#[test]
fn entry_to_row_splits_store_and_marks_offer_free() {
    let mut entry = feed_entry(
        Some("Epic Games (Game) - Subnautica"),
        Some("https://store.epicgames.com/p/subnautica"),
    );
    entry.published = Some(unix(2026, 4, 26, 12));
    let row = free_entry_to_row(&entry);
    assert_eq!(row.store.as_deref(), Some("Epic Games"));
    assert_eq!(row.title, "Subnautica");
    assert_eq!(row.link, "https://store.epicgames.com/p/subnautica");
    assert_eq!(row.sale_price.as_deref(), Some("Free"));
    assert_eq!(row.discount_pct, Some(100));
    assert_eq!(row.published, Some(unix(2026, 4, 26, 12)));
}

#[test]
fn entry_to_row_falls_back_for_titleless_linkless_entry() {
    let row = free_entry_to_row(&feed_entry(None, None));
    assert_eq!(row.title, "(unnamed offer)");
    assert_eq!(row.link, "https://example.com/");
    assert!(row.store.is_none());
}

#[test]
fn free_games_entry_to_row_uses_updated_timestamp_when_published_absent() {
    let mut entry = feed_entry(Some("just a title"), Some("https://example.com/x"));
    entry.published = None;
    entry.updated = Some(unix(2026, 1, 1, 0));
    let row = free_entry_to_row(&entry);
    assert_eq!(row.published, entry.updated);
    assert!(row.store.is_none());
    assert_eq!(row.title, "just a title");
}

// ---- Steam daily-deal feed rows ----

#[test]
fn parse_title_extracts_daily_deal_discount() {
    let (title, pct) = parse_title("Daily Deal - The Beast Inside, 25% Off");
    assert_eq!(title, "The Beast Inside");
    assert_eq!(pct, Some(25));
}

#[test]
fn parse_title_handles_weekend_deal_with_exclamation() {
    let (title, pct) = parse_title("Weekend Deal - Portal 2, 75% Off!");
    assert_eq!(title, "Portal 2");
    assert_eq!(pct, Some(75));
}

#[test]
fn parse_title_handles_midweek_madness_three_word_prefix() {
    let (title, pct) = parse_title("Midweek Madness - Game Of The Year, 50% Off");
    assert_eq!(title, "Game Of The Year");
    assert_eq!(pct, Some(50));
}

#[test]
fn parse_title_returns_none_pct_when_clause_absent() {
    let (title, pct) = parse_title("Free Weekend - Some Multiplayer Game");
    assert_eq!(title, "Some Multiplayer Game");
    assert!(pct.is_none());
}

#[test]
fn parse_title_clamps_implausible_percentages() {
    let (_title, pct) = parse_title("Daily Deal - Bug, 250% Off");
    assert_eq!(pct, Some(100));
}

#[test]
fn parse_title_falls_back_to_raw_when_pattern_misses() {
    let (title, pct) = parse_title("just a random string");
    assert_eq!(title, "just a random string");
    assert!(pct.is_none());
}

#[test]
fn steam_daily_sample_body_covers_every_supported_shape() {
    let f = SteamDailyFetcher;
    for shape in [
        Shape::LinkedTextBlock,
        Shape::TextBlock,
        Shape::MarkdownTextBlock,
        Shape::Text,
        Shape::Entries,
        Shape::Bars,
        Shape::Badge,
        Shape::Timeline,
    ] {
        assert!(f.sample_body(shape).is_some(), "sample missing for {shape:?}");
    }
    assert!(f.sample_body(Shape::ImageLinkedList).is_none());
    assert!(f.sample_body(Shape::Heatmap).is_none());
}

#[test]
fn entry_to_row_parses_steam_title_link_and_store() {
    let mut entry = feed_entry(
        Some("Daily Deal - Portal 2, 75% Off"),
        Some("https://store.steampowered.com/app/620/Portal_2/"),
    );
    entry.published = Some(unix(2026, 4, 26, 12));
    let row = steam_entry_to_row(&entry);
    assert_eq!(row.title, "Portal 2");
    assert_eq!(row.discount_pct, Some(75));
    assert_eq!(row.store.as_deref(), Some("Steam"));
    assert_eq!(row.link, "https://store.steampowered.com/app/620/Portal_2/");
    assert_eq!(row.published, entry.published);
    assert!(row.image_url.is_none());
    assert!(row.sale_price.is_none());
    assert!(row.original_price.is_none());
}

#[test]
fn entry_to_row_names_titleless_entries_unnamed_deal() {
    let row = steam_entry_to_row(&feed_entry(None, None));
    assert_eq!(row.title, "(unnamed deal)");
    assert!(row.discount_pct.is_none());
}

#[test]
fn entry_to_row_falls_back_to_steam_store_url_when_link_missing() {
    let row = steam_entry_to_row(&feed_entry(Some("Weekend Deal - Hades, 50% Off"), None));
    assert_eq!(row.link, "https://store.steampowered.com");
    assert_eq!(row.title, "Hades");
    assert_eq!(row.discount_pct, Some(50));
}

#[test]
fn steam_daily_entry_to_row_uses_updated_timestamp_when_published_absent() {
    let mut entry = feed_entry(Some("Midweek Madness - Celeste, 60% Off"), None);
    entry.updated = Some(unix(2026, 5, 1, 9));
    let row = steam_entry_to_row(&entry);
    assert_eq!(row.published, Some(unix(2026, 5, 1, 9)));
    assert_eq!(row.title, "Celeste");
}

#[test]
fn cache_key_is_name_prefixed_and_varies_with_options() {
    let f = SteamDailyFetcher;
    let ctx = FetchContext::default();
    let bare = f.cache_key(&ctx, "");
    assert!(bare.starts_with("deal_steam_daily"), "got: {bare}");
    let with_opts = f.cache_key(&ctx, &options_text("count = 5"));
    assert!(with_opts.starts_with("deal_steam_daily"), "got: {with_opts}");
    assert_ne!(bare, with_opts);
}

// ---- CheapShark deals ----

#[test]
fn cache_key_varies_with_min_discount() {
    let f = GamesFetcher;
    let ctx = FetchContext::default();
    let a = f.cache_key(&ctx, &options_text("min_discount = 50"));
    let b = f.cache_key(&ctx, &options_text("min_discount = 80"));
    assert_ne!(a, b);
}

#[test]
fn platform_from_word_reads_lowercase_words_only() {
    assert_eq!(platform_from_word("itch").unwrap(), Platform::Itch);
    assert_eq!(platform_from_word("all").unwrap(), Platform::All);
    match platform_from_word("Itch") {
        Err(FetchError::Failed(m)) => assert_eq!(
            m,
            "deal_free_games: unknown platform `Itch` (expected all/epic/steam/amazon/gog/humble/itch/apple/google)"
        ),
        other => panic!("unexpected {other:?}"),
    }
}

#[test]
fn parse_platform_round_trips_every_config_word_in_capitals_with_spaces() {
    for platform in [
        Platform::All,
        Platform::Epic,
        Platform::Steam,
        Platform::Amazon,
        Platform::Gog,
        Platform::Humble,
        Platform::Itch,
        Platform::Apple,
        Platform::Google,
    ] {
        let word = platform.config_value();
        assert_eq!(parse_platform(Some(word)).unwrap(), platform);
        let spaced = format!(" {} ", word.to_uppercase());
        assert_eq!(parse_platform(Some(&spaced)).unwrap(), platform);
    }
}

#[test]
fn kind_from_word_reads_game_and_loot() {
    assert_eq!(kind_from_word("game").unwrap(), Kind::Game);
    assert_eq!(kind_from_word("loot").unwrap(), Kind::Loot);
    match kind_from_word("GAME") {
        Err(FetchError::Failed(m)) => {
            assert_eq!(m, "deal_free_games: unknown kind `GAME` (expected game/loot)")
        }
        other => panic!("unexpected {other:?}"),
    }
}
