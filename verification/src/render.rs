//! Renderer shapes: the structural kinds of body a widget can be drawn as.

use vstd::prelude::*;

verus! {

/// The structural kinds of body a renderer can consume.
#[derive(Debug, Clone, Copy, PartialEq, Eq, Structural)]
pub enum Shape {
    Text,
    TextBlock,
    MarkdownTextBlock,
    LinkedTextBlock,
    ImageLinkedList,
    Entries,
    Bars,
    Timeline,
    Badge,
    Ratio,
    NumberSeries,
    PointSeries,
    Heatmap,
    Calendar,
    Image,
    Lines,
}

/// Position of a shape in a list, if present.
pub open spec fn shape_in(s: Shape, list: Seq<Shape>) -> bool {
    exists|i: int| 0 <= i < list.len() && list[i] == s
}

/// Whether `shape` occurs in `list`.
pub fn contains_shape(list: &Vec<Shape>, shape: Shape) -> (r: bool)
    ensures
        r == shape_in(shape, list@),
{
    let mut i: usize = 0;
    while i < list.len()
        invariant
            i <= list@.len(),
            forall|j: int| 0 <= j < i ==> list@[j] != shape,
        decreases list@.len() - i,
    {
        if list[i] == shape {
            return true;
        }
        i = i + 1;
    }
    false
}

/// Lowercase identifier of a shape (as used in cache keys and catalogs).
pub fn shape_name(s: Shape) -> (r: &'static str)
    ensures
        r@ == spec_shape_name(s),
{
    match s {
        Shape::Text => "text",
        Shape::TextBlock => "text_block",
        Shape::MarkdownTextBlock => "markdown_text_block",
        Shape::LinkedTextBlock => "linked_text_block",
        Shape::ImageLinkedList => "image_linked_list",
        Shape::Entries => "entries",
        Shape::Bars => "bars",
        Shape::Timeline => "timeline",
        Shape::Badge => "badge",
        Shape::Ratio => "ratio",
        Shape::NumberSeries => "number_series",
        Shape::PointSeries => "point_series",
        Shape::Heatmap => "heatmap",
        Shape::Calendar => "calendar",
        Shape::Image => "image",
        Shape::Lines => "lines",
    }
}

pub open spec fn spec_shape_name(s: Shape) -> Seq<char> {
    match s {
        Shape::Text => "text"@,
        Shape::TextBlock => "text_block"@,
        Shape::MarkdownTextBlock => "markdown_text_block"@,
        Shape::LinkedTextBlock => "linked_text_block"@,
        Shape::ImageLinkedList => "image_linked_list"@,
        Shape::Entries => "entries"@,
        Shape::Bars => "bars"@,
        Shape::Timeline => "timeline"@,
        Shape::Badge => "badge"@,
        Shape::Ratio => "ratio"@,
        Shape::NumberSeries => "number_series"@,
        Shape::PointSeries => "point_series"@,
        Shape::Heatmap => "heatmap"@,
        Shape::Calendar => "calendar"@,
        Shape::Image => "image"@,
        Shape::Lines => "lines"@,
    }
}

} // verus!
