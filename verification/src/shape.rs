//! The shapes that a renderer is asked to paint.
//!
//! The library decides what is shown; turning a shape into pixels is left to the host.

use vstd::prelude::*;
use crate::color::Rgba;
use crate::geometry::Point;

verus! {

/// Width of the background box of a label per byte of its text.
pub const LABEL_CHAR_WIDTH: u128 = 9;

/// Width of the background box of an empty label.
pub const LABEL_PADDING: u128 = 14;

/// Height of the background box of a label.
pub const LABEL_HEIGHT: u32 = 30;

/// One thing that a renderer is asked to paint.
#[derive(Clone, Debug, PartialEq, Eq)]
pub enum Shape {
    /// An open line through the points.
    Line { points: Vec<Point>, rgba: Rgba, thickness: u32 },
    /// A closed outline through the points.
    ClosedLine { points: Vec<Point>, rgba: Rgba, thickness: u32 },
    /// A text on a background box of the given size, both anchored at `pos`.
    Label { pos: Point, text: String, rgba: Rgba, box_width: u128, box_height: u32 },
    /// A filled dot that marks a position.
    Dot { center: Point, rgba: Rgba },
    /// The outline of a circle.
    Ring { center: Point, radius: u32 },
}

/// A shape as plain mathematical values.
pub enum ShapeModel {
    Line { points: Seq<Point>, rgba: Rgba, thickness: u32 },
    ClosedLine { points: Seq<Point>, rgba: Rgba, thickness: u32 },
    Label { pos: Point, text: Seq<char>, rgba: Rgba, box_width: int, box_height: u32 },
    Dot { center: Point, rgba: Rgba },
    Ring { center: Point, radius: u32 },
}

impl View for Shape {
    type V = ShapeModel;

    open spec fn view(&self) -> ShapeModel {
        match self {
            Shape::Line { points, rgba, thickness } => ShapeModel::Line {
                points: points@,
                rgba: *rgba,
                thickness: *thickness,
            },
            Shape::ClosedLine { points, rgba, thickness } => ShapeModel::ClosedLine {
                points: points@,
                rgba: *rgba,
                thickness: *thickness,
            },
            Shape::Label { pos, text, rgba, box_width, box_height } => ShapeModel::Label {
                pos: *pos,
                text: text@,
                rgba: *rgba,
                box_width: *box_width as int,
                box_height: *box_height,
            },
            Shape::Dot { center, rgba } => ShapeModel::Dot { center: *center, rgba: *rgba },
            Shape::Ring { center, radius } => ShapeModel::Ring { center: *center, radius: *radius },
        }
    }
}

/// The view of a shape that may be absent.
pub open spec fn shape_view(shape: Option<Shape>) -> Option<ShapeModel> {
    match shape {
        Some(s) => Some(s@),
        None => None,
    }
}

/// Length of a text in bytes of UTF-8, as `str::len` reports it.
pub open spec fn byte_len(text: Seq<char>) -> usize {
    vstd::utf8::encode_utf8(text).len() as usize
}

/// Width of the background box of a label with the given text: a fixed width for each byte of
/// the text, and the padding.
pub open spec fn label_box_width(text: Seq<char>) -> int {
    LABEL_CHAR_WIDTH * byte_len(text) + LABEL_PADDING
}

/// The views of a list of shapes, in the same order.
pub open spec fn shape_views(shapes: Seq<Shape>) -> Seq<ShapeModel> {
    shapes.map_values(|shape: Shape| shape@)
}

} // verus!
