//! The payload model every fetcher produces: a `Body` in one of the renderer
//! shapes, wrapped in a `Payload` with optional decoration.

use vstd::prelude::*;
use vstd::string::*;

use crate::render::Shape;

verus! {

/// Traffic-light tone attached to badges, entries and timeline events.
#[derive(Debug, Clone, Copy, PartialEq, Eq, Structural)]
pub enum Status {
    Okay,
    Warn,
    Error,
}

#[derive(Debug, Clone, PartialEq, Eq)]
pub struct TextData {
    pub value: String,
}

#[derive(Debug, Clone, PartialEq, Eq)]
pub struct TextBlockData {
    pub lines: Vec<String>,
}

#[derive(Debug, Clone, PartialEq, Eq)]
pub struct LinesData {
    pub lines: Vec<String>,
}

#[derive(Debug, Clone, PartialEq, Eq)]
pub struct MarkdownTextBlockData {
    pub value: String,
}

#[derive(Debug, Clone, PartialEq, Eq)]
pub struct LinkedLine {
    pub text: String,
    pub url: Option<String>,
}

#[derive(Debug, Clone, PartialEq, Eq)]
pub struct LinkedTextBlockData {
    pub items: Vec<LinkedLine>,
}

#[derive(Debug, Clone, PartialEq, Eq)]
pub struct ImageLinkedItem {
    pub title: String,
    pub url: Option<String>,
    pub thumbnail_path: Option<String>,
    pub subtitle: Option<String>,
}

#[derive(Debug, Clone, PartialEq, Eq)]
pub struct ImageLinkedListData {
    pub items: Vec<ImageLinkedItem>,
}

#[derive(Debug, Clone, PartialEq, Eq)]
pub struct Entry {
    pub key: String,
    pub value: Option<String>,
    pub status: Option<Status>,
}

#[derive(Debug, Clone, PartialEq, Eq)]
pub struct EntriesData {
    pub items: Vec<Entry>,
}

#[derive(Debug, Clone, PartialEq, Eq)]
pub struct Bar {
    pub label: String,
    pub value: u64,
    pub value_label: Option<String>,
}

#[derive(Debug, Clone, PartialEq, Eq)]
pub struct BarsData {
    pub bars: Vec<Bar>,
}

#[derive(Debug, Clone, PartialEq, Eq)]
pub struct TimelineEvent {
    pub timestamp: i64,
    pub title: String,
    pub detail: Option<String>,
    pub status: Option<Status>,
}

#[derive(Debug, Clone, PartialEq, Eq)]
pub struct TimelineData {
    pub events: Vec<TimelineEvent>,
}

#[derive(Debug, Clone, PartialEq, Eq)]
pub struct BadgeData {
    pub status: Status,
    pub label: String,
}

#[derive(Debug, Clone, PartialEq, Eq)]
pub struct NumberSeriesData {
    pub values: Vec<u64>,
}

/// One named series of integer `(x, y)` points.
#[derive(Debug, Clone, PartialEq, Eq)]
pub struct PointSeries {
    pub name: String,
    pub points: Vec<(i64, i64)>,
}

#[derive(Debug, Clone, PartialEq, Eq)]
pub struct PointSeriesData {
    pub series: Vec<PointSeries>,
}

#[derive(Debug, Clone, PartialEq, Eq)]
pub struct HeatmapData {
    pub cells: Vec<Vec<u32>>,
    pub thresholds: Option<Vec<u32>>,
    pub row_labels: Option<Vec<String>>,
    pub col_labels: Option<Vec<String>>,
}

#[derive(Debug, Clone, PartialEq, Eq)]
pub struct CalendarData {
    pub year: i32,
    pub month: u8,
    pub day: Option<u8>,
    pub events: Vec<u8>,
}

#[derive(Debug, Clone, PartialEq, Eq)]
pub struct ImageData {
    pub path: String,
}

/// A renderable body, one variant per shape.
#[derive(Debug, Clone, PartialEq, Eq)]
pub enum Body {
    Text(TextData),
    TextBlock(TextBlockData),
    Lines(LinesData),
    MarkdownTextBlock(MarkdownTextBlockData),
    LinkedTextBlock(LinkedTextBlockData),
    ImageLinkedList(ImageLinkedListData),
    Entries(EntriesData),
    Bars(BarsData),
    Timeline(TimelineData),
    Badge(BadgeData),
    NumberSeries(NumberSeriesData),
    PointSeries(PointSeriesData),
    Heatmap(HeatmapData),
    Calendar(CalendarData),
    Image(ImageData),
}

/// The shape a body belongs to.
pub open spec fn spec_shape_of(b: Body) -> Shape {
    match b {
        Body::Text(_) => Shape::Text,
        Body::TextBlock(_) => Shape::TextBlock,
        Body::Lines(_) => Shape::Lines,
        Body::MarkdownTextBlock(_) => Shape::MarkdownTextBlock,
        Body::LinkedTextBlock(_) => Shape::LinkedTextBlock,
        Body::ImageLinkedList(_) => Shape::ImageLinkedList,
        Body::Entries(_) => Shape::Entries,
        Body::Bars(_) => Shape::Bars,
        Body::Timeline(_) => Shape::Timeline,
        Body::Badge(_) => Shape::Badge,
        Body::NumberSeries(_) => Shape::NumberSeries,
        Body::PointSeries(_) => Shape::PointSeries,
        Body::Heatmap(_) => Shape::Heatmap,
        Body::Calendar(_) => Shape::Calendar,
        Body::Image(_) => Shape::Image,
    }
}

impl Body {
    /// The shape this body renders as.
    pub fn shape(&self) -> (s: Shape)
        ensures
            s == spec_shape_of(*self),
    {
        match self {
            Body::Text(_) => Shape::Text,
            Body::TextBlock(_) => Shape::TextBlock,
            Body::Lines(_) => Shape::Lines,
            Body::MarkdownTextBlock(_) => Shape::MarkdownTextBlock,
            Body::LinkedTextBlock(_) => Shape::LinkedTextBlock,
            Body::ImageLinkedList(_) => Shape::ImageLinkedList,
            Body::Entries(_) => Shape::Entries,
            Body::Bars(_) => Shape::Bars,
            Body::Timeline(_) => Shape::Timeline,
            Body::Badge(_) => Shape::Badge,
            Body::NumberSeries(_) => Shape::NumberSeries,
            Body::PointSeries(_) => Shape::PointSeries,
            Body::Heatmap(_) => Shape::Heatmap,
            Body::Calendar(_) => Shape::Calendar,
            Body::Image(_) => Shape::Image,
        }
    }
}

/// A body plus the optional icon / status / format decoration.
#[derive(Debug, Clone, PartialEq, Eq)]
pub struct Payload {
    pub icon: Option<String>,
    pub status: Option<Status>,
    pub format: Option<String>,
    pub body: Body,
}

/// Wraps a body in an undecorated payload.
pub fn payload(body: Body) -> (p: Payload)
    ensures
        p.icon is None,
        p.status is None,
        p.format is None,
        p.body == body,
{
    Payload { icon: None, status: None, format: None, body }
}

} // verus!
