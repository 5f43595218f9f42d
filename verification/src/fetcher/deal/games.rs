//! `deal_games` — cross-store gaming deals from the CheapShark API, sorted by savings and
//! kept above a discount floor.

use vstd::prelude::*;
use vstd::string::*;

use crate::fetcher::github::common::{cache_key as keyed_cache_key, spec_cache_key};
use crate::fetcher::{spec_limit, limit_or, FetchContext, OptionSchema, Safety};
use crate::payload::{Body, Status};
use crate::render::Shape;
use crate::samples;
use crate::text::{opt_str_view, opt_string_view};
use crate::text::{dec, join, join_strings, str_eq, u64_to_string, views};

use super::common::{DealRow, MAX_ROWS};

verus! {

/// The `deal_games` fetcher.
pub struct GamesFetcher;

/// Deals endpoint.
pub const API_BASE: &'static str = "https://www.cheapshark.com/api/1.0/deals";

/// Where a deal's link leads.
pub const REDIRECT_BASE: &'static str = "https://www.cheapshark.com/redirect";

/// Widget options.
#[derive(Debug, Default, Clone)]
pub struct Options {
    pub min_discount: Option<u32>,
    pub limit: Option<u32>,
    pub stores: Option<Vec<u32>>,
}

/// A deal as the API reports it, with its prices already rendered for display.
#[derive(Debug, Clone)]
pub struct ApiDeal {
    pub title: String,
    pub deal_id: String,
    pub store_id: String,
    pub sale_price: String,
    pub normal_price: String,
    pub discount_pct: Option<u32>,
    pub thumb: Option<String>,
}

pub open spec fn spec_shapes() -> Seq<Shape> {
    seq![Shape::LinkedTextBlock, Shape::TextBlock, Shape::MarkdownTextBlock, Shape::Text, Shape::Entries, Shape::Bars, Shape::ImageLinkedList, Shape::Badge, Shape::Timeline]
}

impl GamesFetcher {
    /// Catalog name.
    pub fn name(&self) -> (r: &'static str)
        ensures
            r@ == "deal_games"@,
    {
        "deal_games"
    }

    /// Trust class.
    pub fn safety(&self) -> (r: Safety)
        ensures
            r == Safety::Safe,
    {
        Safety::Safe
    }

    /// One-paragraph catalog description.
    pub fn description(&self) -> (r: &'static str)
        ensures
            r@ == "Cross-store gaming deals via the public CheapShark API. Spans Steam, GOG, Epic, Humble, Fanatical, GreenManGaming, and more (filter via `stores`). Sorted by savings; the `min_discount` floor keeps the list focused on actually-meaningful discounts. No API key required."@,
    {
        "Cross-store gaming deals via the public CheapShark API. Spans Steam, GOG, Epic, Humble, Fanatical, GreenManGaming, and more (filter via `stores`). Sorted by savings; the `min_discount` floor keeps the list focused on actually-meaningful discounts. No API key required."
    }

    /// Shapes this fetcher can produce.
    pub fn shapes(&self) -> (r: Vec<Shape>)
        ensures
            r@ == spec_shapes(),
    {
        let r = vec![Shape::LinkedTextBlock, Shape::TextBlock, Shape::MarkdownTextBlock, Shape::Text, Shape::Entries, Shape::Bars, Shape::ImageLinkedList, Shape::Badge, Shape::Timeline];
        assert(r@ =~= spec_shapes());
        r
    }

    /// Shape used when the widget names none.
    pub fn default_shape(&self) -> (r: Shape)
        ensures
            r == Shape::LinkedTextBlock,
    {
        Shape::LinkedTextBlock
    }

    /// Seconds between background refreshes.
    pub fn refresh_interval(&self) -> (r: u64)
        ensures
            r == 3600,
    {
        3600
    }

    /// Documented options.
    pub fn option_schemas(&self) -> (r: Vec<OptionSchema>)
        ensures
            r@.len() == 3,
            r@[0].name@ == "min_discount"@,
            r@[0].required == false,
            opt_str_view(r@[0].default) == Some("50"@),
            r@[1].name@ == "limit"@,
            r@[1].required == false,
            opt_str_view(r@[1].default) == Some("10"@),
            r@[2].name@ == "stores"@,
            r@[2].required == false,
            r@[2].default is None,
    {
        vec![
            OptionSchema {
                name: "min_discount",
                type_hint: "integer (0..=100)",
                required: false,
                default: Some("50"),
                description: "Discount-percent floor. Deals below this percent off are filtered out.",
            },
            OptionSchema {
                name: "limit",
                type_hint: "integer (1..=20)",
                required: false,
                default: Some("10"),
                description: "Maximum number of deals to display.",
            },
            OptionSchema {
                name: "stores",
                type_hint: "list of integers (CheapShark store IDs)",
                required: false,
                default: None,
                description: "Restrict to specific stores (CheapShark IDs: 1=Steam, 7=GOG, 11=Humble, 25=Epic, …). Omit for every store.",
            },
        ]
    }

}


/// The discount floor: the configured one (default 50), at most 100.
pub fn min_discount(opts: &Options) -> (d: u32)
    ensures
        d == (match opts.min_discount {
            Some(v) => if v > 100 { 100 } else { v },
            None => 50,
        }),
{
    match opts.min_discount {
        Some(v) => if v > 100 {
            100
        } else {
            v
        },
        None => 50,
    }
}

/// Rows requested: the configured limit (default 10) within 1..=20.
pub fn row_limit(opts: &Options) -> (l: u32)
    ensures
        l == spec_limit(opts.limit, 10, 1, MAX_ROWS as u32),
{
    limit_or(opts.limit, 10, 1, MAX_ROWS as u32)
}

/// `&minDiscount=N` for a positive floor.
pub open spec fn discount_filter(min_discount: u32) -> Seq<char> {
    if min_discount > 0 {
        "&minDiscount="@ + dec(min_discount as nat)
    } else {
        Seq::empty()
    }
}

/// `&storeID=a,b,c` for a non-empty store list.
pub open spec fn store_filter(stores: Option<Seq<u32>>) -> Seq<char> {
    match stores {
        Some(ids) => if ids.len() > 0 {
            "&storeID="@ + join(Seq::new(ids.len(), |i: int| dec(ids[i] as nat)), ","@)
        } else {
            Seq::empty()
        },
        None => Seq::empty(),
    }
}

pub open spec fn opt_ids(s: Option<&[u32]>) -> Option<Seq<u32>> {
    match s {
        Some(x) => Some(x@),
        None => None,
    }
}

/// The deals query: sorted by savings, on sale, one page of `limit`, with the optional
/// discount floor and store filter.
pub fn build_url(min_discount: u32, limit: u32, stores: Option<&[u32]>) -> (url: String)
    ensures
        url@ == API_BASE@ + "?sortBy=Savings&desc=1&onSale=1&pageSize="@ + dec(limit as nat)
            + "&lowerPrice=0"@ + discount_filter(min_discount) + store_filter(opt_ids(stores)),
{
    let mut url = String::from_str(API_BASE);
    url.append("?sortBy=Savings&desc=1&onSale=1&pageSize=");
    let l = u64_to_string(limit as u64);
    url.append(l.as_str());
    url.append("&lowerPrice=0");
    if min_discount > 0 {
        url.append("&minDiscount=");
        let d = u64_to_string(min_discount as u64);
        url.append(d.as_str());
    }
    match stores {
        Some(ids) => {
            if ids.len() > 0 {
                let mut parts: Vec<String> = Vec::new();
                let mut i: usize = 0;
                while i < ids.len()
                    invariant
                        i <= ids@.len(),
                        parts@.len() == i,
                        forall|k: int| 0 <= k < i ==> #[trigger] parts@[k]@ == dec(ids@[k] as nat),
                    decreases ids@.len() - i,
                {
                    parts.push(u64_to_string(ids[i] as u64));
                    i += 1;
                }
                assert(views(parts@) =~= Seq::new(ids@.len(), |k: int| dec(ids@[k] as nat)));
                url.append("&storeID=");
                let csv = join_strings(&parts, ",");
                url.append(csv.as_str());
            }
        },
        None => {},
    }
    url
}

/// Friendly names of the CheapShark store ids; `Other store` for the rest.
pub open spec fn spec_store_name(id: Seq<char>) -> Seq<char> {
    if id == "1"@ { "Steam"@ }
    else if id == "2"@ { "GamersGate"@ }
    else if id == "3"@ { "GreenManGaming"@ }
    else if id == "4"@ { "Amazon"@ }
    else if id == "5"@ { "GameStop"@ }
    else if id == "7"@ { "GOG"@ }
    else if id == "8"@ { "Origin"@ }
    else if id == "11"@ { "Humble Store"@ }
    else if id == "13"@ { "Ubisoft Store"@ }
    else if id == "15"@ { "Fanatical"@ }
    else if id == "21"@ { "WinGameStore"@ }
    else if id == "23"@ { "GameBillet"@ }
    else if id == "24"@ { "Voidu"@ }
    else if id == "25"@ { "Epic Games Store"@ }
    else if id == "27"@ { "Gamesplanet"@ }
    else if id == "29"@ { "2Game"@ }
    else if id == "30"@ { "IndieGala"@ }
    else if id == "31"@ { "Blizzard Shop"@ }
    else if id == "33"@ { "DLGamer"@ }
    else { "Other store"@ }
}

/// The store's name.
pub fn store_name(id: &str) -> (s: &'static str)
    ensures
        s@ == spec_store_name(id@),
{
    if str_eq(id, "1") { "Steam" }
    else if str_eq(id, "2") { "GamersGate" }
    else if str_eq(id, "3") { "GreenManGaming" }
    else if str_eq(id, "4") { "Amazon" }
    else if str_eq(id, "5") { "GameStop" }
    else if str_eq(id, "7") { "GOG" }
    else if str_eq(id, "8") { "Origin" }
    else if str_eq(id, "11") { "Humble Store" }
    else if str_eq(id, "13") { "Ubisoft Store" }
    else if str_eq(id, "15") { "Fanatical" }
    else if str_eq(id, "21") { "WinGameStore" }
    else if str_eq(id, "23") { "GameBillet" }
    else if str_eq(id, "24") { "Voidu" }
    else if str_eq(id, "25") { "Epic Games Store" }
    else if str_eq(id, "27") { "Gamesplanet" }
    else if str_eq(id, "29") { "2Game" }
    else if str_eq(id, "30") { "IndieGala" }
    else if str_eq(id, "31") { "Blizzard Shop" }
    else if str_eq(id, "33") { "DLGamer" }
    else { "Other store" }
}

/// A deal as a row: both prices, the discount, the store's name, a redirect link and the
/// thumbnail when it is non-empty.
pub fn api_to_row(deal: &ApiDeal) -> (r: DealRow)
    ensures
        r.title@ == deal.title@,
        opt_string_view(r.image_url) == (match deal.thumb {
            Some(t) => if t@.len() > 0 {
                Some(t@)
            } else {
                None
            },
            None => None,
        }),
        opt_string_view(r.sale_price) == Some(deal.sale_price@),
        opt_string_view(r.original_price) == Some(deal.normal_price@),
        r.discount_pct == deal.discount_pct,
        opt_string_view(r.store) == Some(spec_store_name(deal.store_id@)),
        r.link@ == REDIRECT_BASE@ + "?dealID="@ + deal.deal_id@,
        r.published is None,
{
    let image_url = match &deal.thumb {
        Some(t) => if t.as_str().unicode_len() > 0 {
            Some(String::from_str(t.as_str()))
        } else {
            None
        },
        None => None,
    };
    let mut link = String::from_str(REDIRECT_BASE);
    link.append("?dealID=");
    link.append(deal.deal_id.as_str());
    DealRow {
        title: String::from_str(deal.title.as_str()),
        image_url,
        sale_price: Some(String::from_str(deal.sale_price.as_str())),
        original_price: Some(String::from_str(deal.normal_price.as_str())),
        discount_pct: deal.discount_pct,
        store: Some(String::from_str(store_name(deal.store_id.as_str()))),
        link,
        published: None,
    }
}

impl GamesFetcher {
    /// Cache key: the context plus the serialized options.
    pub fn cache_key(&self, ctx: &FetchContext, options_text: &str) -> (k: String)
        ensures
            k@ == spec_cache_key("deal_games"@, *ctx, options_text@),
    {
        keyed_cache_key("deal_games", ctx, options_text)
    }
}

impl GamesFetcher {
    /// Canned body per supported shape (cards need downloads, so they have none).
    pub fn sample_body(&self, shape: Shape) -> (r: Option<Body>)
        ensures
            r is Some <==> (shape == Shape::LinkedTextBlock || shape == Shape::TextBlock || shape
                == Shape::MarkdownTextBlock || shape == Shape::Text || shape == Shape::Entries
                || shape == Shape::Bars || shape == Shape::Badge || shape == Shape::Timeline),
            shape == Shape::Badge ==> (r matches Some(Body::Badge(d)) && d.status == Status::Okay
                && d.label@ == "75% off"@),
            r matches Some(b) ==> crate::payload::spec_shape_of(b) == shape,
    {
        match shape {
            Shape::LinkedTextBlock => Some(
                samples::linked_text_block(
                    &[
                        (
                            "[Steam] Disco Elysium  $9.99 (75% off from $39.99)",
                            Some("https://www.cheapshark.com/redirect?dealID=sample-1"),
                        ),
                        (
                            "[Epic Games Store] Cyberpunk 2077  $29.99 (50% off from $59.99)",
                            Some("https://www.cheapshark.com/redirect?dealID=sample-2"),
                        ),
                        (
                            "[GOG] The Witcher 3  $4.99 (75% off from $19.99)",
                            Some("https://www.cheapshark.com/redirect?dealID=sample-3"),
                        ),
                    ],
                ),
            ),
            Shape::TextBlock => Some(
                samples::text_block(
                    &[
                        "[Steam] Disco Elysium  $9.99 (75% off from $39.99)",
                        "[Epic Games Store] Cyberpunk 2077  $29.99 (50% off from $59.99)",
                        "[GOG] The Witcher 3  $4.99 (75% off from $19.99)",
                    ],
                ),
            ),
            Shape::MarkdownTextBlock => Some(
                samples::markdown(
                    "- [[Steam] Disco Elysium  $9.99 (75% off)](https://www.cheapshark.com/redirect?dealID=sample-1)\n- [[GOG] The Witcher 3  $4.99 (75% off)](https://www.cheapshark.com/redirect?dealID=sample-3)",
                ),
            ),
            Shape::Text => Some(
                samples::text("[Steam] Disco Elysium  $9.99 (75% off from $39.99)"),
            ),
            Shape::Entries => Some(
                samples::entries(
                    &[
                        ("Disco Elysium", "$9.99 (75% off)"),
                        ("Cyberpunk 2077", "$29.99 (50% off)"),
                        ("The Witcher 3", "$4.99 (75% off)"),
                    ],
                ),
            ),
            Shape::Bars => Some(
                samples::bars(
                    &[("Disco Elysium", 75), ("The Witcher 3", 75), ("Cyberpunk 2077", 50)],
                ),
            ),
            Shape::Badge => Some(samples::badge(Status::Okay, "75% off")),
            Shape::Timeline => Some(
                samples::timeline(
                    &[
                        (1_745_625_600, "Disco Elysium", Some("Steam · $9.99 · 75% off")),
                        (
                            1_745_539_200,
                            "Cyberpunk 2077",
                            Some("Epic Games Store · $29.99 · 50% off"),
                        ),
                    ],
                ),
            ),
            _ => None,
        }
    }
}

} // verus!
