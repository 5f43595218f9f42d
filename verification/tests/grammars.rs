use regex::Regex;
use splashboard::fetcher::deal::free_games::store_title_split;
use splashboard::fetcher::deal::steam_daily::{deal_title_split, parse_title};
use splashboard::fetcher::feed::image_sources;

fn store_title_by_regex(raw: &str) -> Option<(String, String)> {
    let re = Regex::new(r"^(?P<store>[^(]+?)\s*\((?:Game|Loot)\)\s*-\s*(?P<title>.+)$").unwrap();
    re.captures(raw)
        .map(|c| (c["store"].trim().to_string(), c["title"].trim().to_string()))
}

fn deal_title_by_regex(raw: &str) -> Option<(String, Option<String>)> {
    let re = Regex::new(
        r"^(?P<prefix>[A-Za-z][A-Za-z ]+?)\s*-\s*(?P<title>.+?)(?:,\s*(?P<pct>\d{1,3})% Off!?)?$",
    )
    .unwrap();
    re.captures(raw)
        .map(|c| (c["title"].to_string(), c.name("pct").map(|m| m.as_str().to_string())))
}

fn image_sources_by_regex(html: &str) -> Vec<String> {
    let re = Regex::new(r#"(?is)<img\b[^>]*?\bsrc\s*=\s*["']([^"']+)["']"#).unwrap();
    re.captures_iter(html).map(|c| c[1].to_string()).collect()
}

const STORE_TITLES: &[&str] = &[
    "Epic Games (Game) - Subnautica",
    "Amazon Prime (Loot) -  Star Wars Battlefront II  ",
    "GOG (Game)-Galactic Civilizations III",
    "(Game) - No store",
    " (Game) - Blank store",
    "Epic (DLC) - Not a game",
    "Epic (Game) Missing dash",
    "Epic (Game) - ",
    "Epic (Game) -  ",
    "Epic (Game) - \n",
    "Epic (Game) - a\nb",
    "Epic\n(Game) - multi line store",
    "Epic (Game) - Title (Game) - again",
    "Store ((Game) - double paren",
    "Store\t(Loot)\t-\tTabs",
    "Store (game) - lower case kind",
    "",
    "just text",
];

const DEAL_TITLES: &[&str] = &[
    "Daily Deal - The Beast Inside, 25% Off",
    "Weekend Deal - Portal 2, 75% Off!",
    "Midweek Madness - Game Of The Year, 50% Off",
    "Free Weekend - Some Multiplayer Game",
    "Daily Deal - Bug, 250% Off",
    "Daily Deal - Bug, 2500% Off",
    "Daily Deal - A, B, 10% Off",
    "Daily Deal - X, \u{662}\u{665}% Off",
    "Daily Deal - ,5% Off",
    "Daily Deal -  ,\n5% Off",
    "Daily Deal - x,\n5% Off",
    "Daily Deal -    ",
    "Daily Deal - \n",
    "Daily Deal - a\nb",
    "D - x",
    "1 Deal - x",
    "Daily\tDeal - x",
    "Daily Deal\t- x",
    "Daily Deal-x, 5% Off",
    "Daily Deal - x, 5% off",
    "just a random string",
    "",
];

const HTML: &[&str] = &[
    r#"<p><img src="https://example.com/a.png"></p>"#,
    r#"<IMG class=a SRC='https://x/a.png'> <img src="b.png">"#,
    r#"<imgx src='a'><img data-src='b'><img xsrc='c'>"#,
    r#"<img alt="x > y" src="after.png">"#,
    r#"<img src = " spaced.png" ><img src=''><img src='ok'>"#,
    "<img\nsrc=\"nl.png\">",
    "<img src='mixed.png\">",
    "<img \u{17f}rc='long-s.png'>",
    "<img src=unquoted.png>",
    "<img><img src='second.png'>",
    "<\u{130}mg src='dotted.png'>",
    "<imgé src='accent.png'>",
    "",
];

#[test]
fn store_title_grammar_agrees_with_the_regex() {
    for raw in STORE_TITLES {
        assert_eq!(store_title_split(raw), store_title_by_regex(raw), "input {raw:?}");
    }
}

#[test]
fn deal_title_grammar_agrees_with_the_regex() {
    for raw in DEAL_TITLES {
        assert_eq!(deal_title_split(raw), deal_title_by_regex(raw), "input {raw:?}");
    }
}

#[test]
fn image_source_grammar_agrees_with_the_regex() {
    for html in HTML {
        assert_eq!(image_sources(html), image_sources_by_regex(html), "input {html:?}");
    }
}

#[test]
fn store_title_split_trims_both_parts() {
    assert_eq!(
        store_title_split("Amazon Prime (Loot) -  Star Wars  "),
        Some(("Amazon Prime".to_string(), "Star Wars".to_string()))
    );
    assert_eq!(store_title_split("Epic (DLC) - x"), None);
}

#[test]
fn deal_title_with_non_ascii_digits_has_no_discount() {
    assert_eq!(parse_title("Daily Deal - X, \u{662}\u{665}% Off"), ("X".to_string(), None));
}

#[test]
fn image_sources_reads_every_tag_in_order() {
    assert_eq!(
        image_sources(r#"<IMG class=a SRC='https://x/a.png'> <img src="b.png">"#),
        vec!["https://x/a.png".to_string(), "b.png".to_string()]
    );
}

/// A small deterministic generator of texts made of the given fragments.
fn samples_from(fragments: &[&str], count: usize, seed: u64) -> Vec<String> {
    let mut state = seed;
    let mut next = move || {
        state = state.wrapping_mul(6364136223846793005).wrapping_add(1442695040888963407);
        (state >> 33) as usize
    };
    (0..count)
        .map(|_| {
            let parts = next() % 7;
            (0..parts).map(|_| fragments[next() % fragments.len()]).collect::<String>()
        })
        .collect()
}

#[test]
fn store_title_grammar_agrees_with_the_regex_on_generated_texts() {
    let fragments = [
        "Epic", " ", "(Game)", "(Loot)", "(", ")", "-", "\n", "x", "\t", "Game", "(DLC)",
    ];
    for raw in samples_from(&fragments, 4000, 7) {
        assert_eq!(store_title_split(&raw), store_title_by_regex(&raw), "input {raw:?}");
    }
}

#[test]
fn deal_title_grammar_agrees_with_the_regex_on_generated_texts() {
    let fragments = [
        "Daily", " ", "-", ",", "5", "25", "1000", "% Off", "!", "\n", "x", "\t", "\u{665}", "D",
    ];
    for raw in samples_from(&fragments, 4000, 11) {
        assert_eq!(deal_title_split(&raw), deal_title_by_regex(&raw), "input {raw:?}");
    }
}

#[test]
fn image_source_grammar_agrees_with_the_regex_on_generated_texts() {
    let fragments = [
        "<img", "<IMG", " ", "src", "SRC", "=", "'", "\"", "a.png", ">", "-", "x", "\n", "\u{17f}rc",
    ];
    for html in samples_from(&fragments, 4000, 13) {
        assert_eq!(image_sources(&html), image_sources_by_regex(&html), "input {html:?}");
    }
}
