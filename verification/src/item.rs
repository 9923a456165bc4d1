//! The annotation items: freehand strokes, closed polygons and text labels.
//!
//! An item is immutable once built. Its mathematical model is [`ItemModel`]; validity and the
//! eraser's hit test are stated on the model and decided by the executable methods.

use vstd::prelude::*;
use crate::color::Rgba;
use crate::geometry::{any_point_within, any_within, copy_points, Point};
use crate::shape::{label_box_width, shape_view, Shape, ShapeModel, LABEL_CHAR_WIDTH, LABEL_HEIGHT, LABEL_PADDING};

verus! {

/// Fewest sample points a stroke may hold.
pub const MIN_STROKE_POINTS: usize = 2;

/// Fewest vertices a polygon may hold.
pub const MIN_POLYGON_POINTS: usize = 3;

/// A freehand line through its sample points, in drawing order.
#[derive(Clone, Debug, PartialEq, Eq)]
pub struct StrokePath {
    pub points: Vec<Point>,
    pub rgba: Rgba,
    pub thickness: u32,
}

/// A closed outline through its vertices, in click order.
#[derive(Clone, Debug, PartialEq, Eq)]
pub struct PolygonShape {
    pub points: Vec<Point>,
    pub rgba: Rgba,
    pub thickness: u32,
}

/// A text label anchored at one position.
#[derive(Clone, Debug, PartialEq, Eq)]
pub struct TextBox {
    pub pos: Point,
    pub text: String,
    pub rgba: Rgba,
}

/// One annotation on the canvas.
#[derive(Clone, Debug, PartialEq, Eq)]
pub enum CanvasItem {
    Stroke(StrokePath),
    Polygon(PolygonShape),
    Text(TextBox),
}

/// What an item is, as plain mathematical values.
pub enum ItemModel {
    Stroke { points: Seq<Point>, rgba: Rgba, thickness: u32 },
    Polygon { points: Seq<Point>, rgba: Rgba, thickness: u32 },
    Text { pos: Point, text: Seq<char>, rgba: Rgba },
}

impl ItemModel {
    /// An item that may be stored: a stroke has at least two points, a polygon at least three
    /// vertices, and a line thickness is positive. Every text label is valid.
    pub open spec fn valid(self) -> bool {
        match self {
            ItemModel::Stroke { points, thickness, .. } => points.len() >= MIN_STROKE_POINTS && thickness >= 1,
            ItemModel::Polygon { points, thickness, .. } => points.len() >= MIN_POLYGON_POINTS && thickness >= 1,
            ItemModel::Text { .. } => true,
        }
    }

    /// The positions the item is made of: every sample point or vertex, or the anchor of a label.
    pub open spec fn constituent_points(self) -> Seq<Point> {
        match self {
            ItemModel::Stroke { points, .. } => points,
            ItemModel::Polygon { points, .. } => points,
            ItemModel::Text { pos, .. } => seq![pos],
        }
    }

    /// Whether the eraser at `center` with the given radius touches the item: some constituent
    /// point lies within the radius, the rim included.
    pub open spec fn hit(self, center: Point, radius: u32) -> bool {
        any_within(self.constituent_points(), center, radius)
    }

    /// What is painted for the item: a stroke of more than one point is an open line, a
    /// polygon of more than two vertices a closed outline, a label its text on a box. A
    /// stroke or polygon with fewer points is not painted.
    pub open spec fn shape(self) -> Option<ShapeModel> {
        match self {
            ItemModel::Stroke { points, rgba, thickness } => if points.len() > 1 {
                Some(ShapeModel::Line { points, rgba, thickness })
            } else {
                None
            },
            ItemModel::Polygon { points, rgba, thickness } => if points.len() > 2 {
                Some(ShapeModel::ClosedLine { points, rgba, thickness })
            } else {
                None
            },
            ItemModel::Text { pos, text, rgba } => Some(
                ShapeModel::Label {
                    pos,
                    text,
                    rgba,
                    box_width: label_box_width(text),
                    box_height: LABEL_HEIGHT,
                },
            ),
        }
    }
}

impl View for StrokePath {
    type V = ItemModel;

    open spec fn view(&self) -> ItemModel {
        ItemModel::Stroke { points: self.points@, rgba: self.rgba, thickness: self.thickness }
    }
}

impl View for PolygonShape {
    type V = ItemModel;

    open spec fn view(&self) -> ItemModel {
        ItemModel::Polygon { points: self.points@, rgba: self.rgba, thickness: self.thickness }
    }
}

impl View for TextBox {
    type V = ItemModel;

    open spec fn view(&self) -> ItemModel {
        ItemModel::Text { pos: self.pos, text: self.text@, rgba: self.rgba }
    }
}

impl View for CanvasItem {
    type V = ItemModel;

    open spec fn view(&self) -> ItemModel {
        match self {
            CanvasItem::Stroke(path) => path@,
            CanvasItem::Polygon(poly) => poly@,
            CanvasItem::Text(t) => t@,
        }
    }
}

/// The models of a list of items, in the same order.
pub open spec fn models(items: Seq<CanvasItem>) -> Seq<ItemModel> {
    items.map_values(|item: CanvasItem| item@)
}

impl CanvasItem {
    /// A stroke through `points`, or nothing where the stroke would be invalid.
    pub fn stroke(points: Vec<Point>, rgba: Rgba, thickness: u32) -> (item: Option<CanvasItem>)
        ensures
            match item {
                Some(it) => it@ == (ItemModel::Stroke { points: points@, rgba, thickness })
                    && it@.valid(),
                None => !(ItemModel::Stroke { points: points@, rgba, thickness }).valid(),
            },
    {
        if points.len() >= MIN_STROKE_POINTS && thickness >= 1 {
            Some(CanvasItem::Stroke(StrokePath { points, rgba, thickness }))
        } else {
            None
        }
    }

    /// A polygon through `points`, or nothing where the polygon would be invalid.
    pub fn polygon(points: Vec<Point>, rgba: Rgba, thickness: u32) -> (item: Option<CanvasItem>)
        ensures
            match item {
                Some(it) => it@ == (ItemModel::Polygon { points: points@, rgba, thickness })
                    && it@.valid(),
                None => !(ItemModel::Polygon { points: points@, rgba, thickness }).valid(),
            },
    {
        if points.len() >= MIN_POLYGON_POINTS && thickness >= 1 {
            Some(CanvasItem::Polygon(PolygonShape { points, rgba, thickness }))
        } else {
            None
        }
    }

    /// A text label at `pos`.
    pub fn text(pos: Point, text: String, rgba: Rgba) -> (item: CanvasItem)
        ensures
            item@ == (ItemModel::Text { pos, text: text@, rgba }),
            item@.valid(),
    {
        CanvasItem::Text(TextBox { pos, text, rgba })
    }

    /// Decides whether the item may be stored.
    pub fn is_valid(&self) -> (ok: bool)
        ensures
            ok == self@.valid(),
    {
        match self {
            CanvasItem::Stroke(path) => path.points.len() >= MIN_STROKE_POINTS && path.thickness >= 1,
            CanvasItem::Polygon(poly) => poly.points.len() >= MIN_POLYGON_POINTS && poly.thickness >= 1,
            CanvasItem::Text(_) => true,
        }
    }

    /// Decides whether the eraser at `center` with the given radius touches the item.
    pub fn is_hit(&self, center: Point, radius: u32) -> (hit: bool)
        ensures
            hit == self@.hit(center, radius),
    {
        match self {
            CanvasItem::Stroke(path) => any_point_within(&path.points, center, radius),
            CanvasItem::Polygon(poly) => any_point_within(&poly.points, center, radius),
            CanvasItem::Text(t) => {
                let hit = t.pos.is_within(center, radius);
                proof {
                    let pts = seq![t.pos];
                    assert(pts[0] == t.pos);
                }
                hit
            },
        }
    }

    /// What a renderer is asked to paint for the item, if anything.
    pub fn draw(&self) -> (shape: Option<Shape>)
        ensures
            shape_view(shape) == self@.shape(),
    {
        match self {
            CanvasItem::Stroke(path) => {
                if path.points.len() > 1 {
                    Some(
                        Shape::Line {
                            points: copy_points(&path.points),
                            rgba: path.rgba,
                            thickness: path.thickness,
                        },
                    )
                } else {
                    None
                }
            },
            CanvasItem::Polygon(poly) => {
                if poly.points.len() > 2 {
                    Some(
                        Shape::ClosedLine {
                            points: copy_points(&poly.points),
                            rgba: poly.rgba,
                            thickness: poly.thickness,
                        },
                    )
                } else {
                    None
                }
            },
            CanvasItem::Text(t) => {
                let bytes: u128 = t.text.as_str().len() as u128;
                Some(
                    Shape::Label {
                        pos: t.pos,
                        text: t.text.clone(),
                        rgba: t.rgba,
                        box_width: LABEL_CHAR_WIDTH * bytes + LABEL_PADDING,
                        box_height: LABEL_HEIGHT,
                    },
                )
            },
        }
    }
}

} // verus!
