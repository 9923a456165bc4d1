//! The mathematical model of the session: its state and one transition for each input event.
//!
//! The contracts of the executable session are stated over these functions, and the laws of
//! the session are proved about them.

use vstd::prelude::*;
use crate::color::Rgba;
use crate::geometry::Point;
use crate::history::HistoryModel;
use crate::input::{pressed_tools, CanvasInput, FrameInput, Shortcuts, ToolbarEvent};
use crate::item::ItemModel;
use crate::shape::ShapeModel;
use crate::text::label_text;
use crate::tool::{
    lemma_path_extend, passthrough_edge, path_commands, tool_after, PlatformCommand, Tool,
};

verus! {

/// Smallest line thickness that can be set.
pub const THICKNESS_MIN: u32 = 1;

/// Largest line thickness that can be set.
pub const THICKNESS_MAX: u32 = 24;

/// Smallest eraser radius that can be set.
pub const ERASER_MIN: u32 = 8;

/// Largest eraser radius that can be set.
pub const ERASER_MAX: u32 = 80;

/// Line thickness of a fresh session.
pub const DEFAULT_THICKNESS: u32 = 4;

/// Eraser radius of a fresh session.
pub const DEFAULT_ERASER_SIZE: u32 = 24;

/// `value` moved to the nearest value of `lo..=hi`.
pub open spec fn clamp(value: u32, lo: u32, hi: u32) -> u32 {
    if value < lo {
        lo
    } else if value > hi {
        hi
    } else {
        value
    }
}

/// A dot in the given colour on each of the points, in order.
pub open spec fn vertex_dots(points: Seq<Point>, rgba: Rgba) -> Seq<ShapeModel> {
    points.map_values(|center: Point| ShapeModel::Dot { center, rgba })
}

/// The shapes of the items that have one, in the order of the items.
pub open spec fn item_shapes(items: Seq<ItemModel>) -> Seq<ShapeModel> {
    items.filter_map(|item: ItemModel| item.shape())
}

/// The mathematical state of a session.
pub struct AppModel {
    pub palette: Seq<Rgba>,
    pub active_color: int,
    pub thickness: u32,
    pub tool: Tool,
    /// The points of the pen stroke in progress.
    pub drawing: Seq<Point>,
    /// The vertices of the open polygon.
    pub polygon_points: Seq<Point>,
    pub history: HistoryModel,
    pub eraser_size: u32,
    pub text_draft: Seq<char>,
}

impl AppModel {
    /// The palette is not empty and the active index lies in it; thickness and eraser radius
    /// lie in their ranges; no stored item is malformed; a pen stroke is in progress only
    /// while the pen is the active tool.
    pub open spec fn wf(self) -> bool {
        &&& 0 <= self.active_color < self.palette.len()
        &&& THICKNESS_MIN <= self.thickness <= THICKNESS_MAX
        &&& ERASER_MIN <= self.eraser_size <= ERASER_MAX
        &&& self.history.wf()
        &&& self.tool != Tool::Pen ==> self.drawing.len() == 0
    }

    /// A fresh session over `palette`: pen selected, first colour active, nothing drawn.
    pub open spec fn fresh(palette: Seq<Rgba>) -> AppModel {
        AppModel {
            palette,
            active_color: 0,
            thickness: DEFAULT_THICKNESS,
            tool: Tool::Pen,
            drawing: Seq::empty(),
            polygon_points: Seq::empty(),
            history: HistoryModel::empty(),
            eraser_size: DEFAULT_ERASER_SIZE,
            text_draft: "Text"@,
        }
    }

    /// The colour that new items get.
    pub open spec fn active_rgba(self) -> Rgba {
        self.palette[self.active_color]
    }

    /// Whether pointer input falls through to the windows underneath.
    pub open spec fn passthrough(self) -> bool {
        self.tool.passthrough()
    }

    /// The active tool becomes `tool`. A pen stroke in progress is dropped, not committed,
    /// unless the pen stays active. The open polygon is kept.
    pub open spec fn set_tool(self, tool: Tool) -> AppModel {
        AppModel {
            tool,
            drawing: if tool == Tool::Pen { self.drawing } else { Seq::empty() },
            ..self
        }
    }

    /// The palette entry `index` becomes the active colour; an index outside the palette
    /// changes nothing.
    pub open spec fn pick_color(self, index: usize) -> AppModel {
        if index < self.palette.len() {
            AppModel { active_color: index as int, ..self }
        } else {
            self
        }
    }

    /// The thickness becomes `value`, moved into the range of thicknesses.
    pub open spec fn set_thickness(self, value: u32) -> AppModel {
        AppModel { thickness: clamp(value, THICKNESS_MIN, THICKNESS_MAX), ..self }
    }

    /// The eraser radius becomes `value`, moved into the range of radii.
    pub open spec fn set_eraser_size(self, value: u32) -> AppModel {
        AppModel { eraser_size: clamp(value, ERASER_MIN, ERASER_MAX), ..self }
    }

    pub open spec fn set_text_draft(self, draft: Seq<char>) -> AppModel {
        AppModel { text_draft: draft, ..self }
    }

    /// `item` is committed to the history: stored on top, with the redo stack emptied, if it
    /// is valid, and discarded otherwise.
    pub open spec fn commit(self, item: ItemModel) -> AppModel {
        AppModel { history: self.history.commit(item), ..self }
    }

    pub open spec fn undo(self) -> AppModel {
        AppModel { history: self.history.undo(), ..self }
    }

    pub open spec fn redo(self) -> AppModel {
        AppModel { history: self.history.redo(), ..self }
    }

    /// The history and both gesture buffers are emptied together. Settings and the draft
    /// text stay.
    pub open spec fn clear(self) -> AppModel {
        AppModel {
            history: self.history.clear(),
            drawing: Seq::empty(),
            polygon_points: Seq::empty(),
            ..self
        }
    }

    /// The polygon that the open vertex buffer would be committed as.
    pub open spec fn open_polygon(self) -> ItemModel {
        ItemModel::Polygon {
            points: self.polygon_points,
            rgba: self.active_rgba(),
            thickness: self.thickness,
        }
    }

    /// Whether the finish signal commits the open polygon: the polygon tool is active and at
    /// least three vertices were clicked.
    pub open spec fn can_finish_polygon(self) -> bool {
        self.tool == Tool::Polygon && self.polygon_points.len() >= 3
    }

    /// The finish signal: the open polygon is committed and the vertex buffer emptied, or
    /// nothing changes.
    pub open spec fn finish_polygon(self) -> AppModel {
        if self.can_finish_polygon() {
            AppModel { polygon_points: Seq::empty(), ..self.commit(self.open_polygon()) }
        } else {
            self
        }
    }

    /// One eraser sample at `center`, with the current eraser radius.
    pub open spec fn erase_near(self, center: Point) -> AppModel {
        AppModel { history: self.history.erase(center, self.eraser_size), ..self }
    }

    /// The stroke that the points of a pen gesture would be committed as.
    pub open spec fn stroke_of(self, points: Seq<Point>) -> ItemModel {
        ItemModel::Stroke { points, rgba: self.active_rgba(), thickness: self.thickness }
    }

    /// The pen stroke in progress after this frame's pointer input, before any commit: a
    /// drag start empties the buffer, then a drag with a pointer position appends it.
    pub open spec fn pen_buffer(self, input: CanvasInput) -> Seq<Point> {
        let started = if input.drag_started {
            Seq::empty()
        } else {
            self.drawing
        };
        if input.dragged && input.pointer is Some {
            started.push(input.pointer->0)
        } else {
            started
        }
    }

    /// Canvas input under the pen: the buffer is updated; at the end of a drag a buffer of more
    /// than one point is committed as a stroke and emptied.
    pub open spec fn pen_input(self, input: CanvasInput) -> AppModel {
        let buffer = self.pen_buffer(input);
        if input.drag_stopped && buffer.len() > 1 {
            AppModel { drawing: Seq::empty(), ..self.commit(self.stroke_of(buffer)) }
        } else {
            AppModel { drawing: buffer, ..self }
        }
    }

    /// Canvas input under the polygon tool: a click appends a vertex to the open polygon.
    /// Nothing is committed.
    pub open spec fn polygon_input(self, input: CanvasInput) -> AppModel {
        if input.clicked && input.pointer is Some {
            AppModel { polygon_points: self.polygon_points.push(input.pointer->0), ..self }
        } else {
            self
        }
    }

    /// The label that a click at `pos` places.
    pub open spec fn label_at(self, pos: Point) -> ItemModel {
        ItemModel::Text { pos, text: label_text(self.text_draft), rgba: self.active_rgba() }
    }

    /// Canvas input under the text tool: a click commits a label at once.
    pub open spec fn text_input(self, input: CanvasInput) -> AppModel {
        if input.clicked && input.pointer is Some {
            self.commit(self.label_at(input.pointer->0))
        } else {
            self
        }
    }

    /// Canvas input under the eraser: a drag with a pointer position is one eraser sample.
    pub open spec fn eraser_input(self, input: CanvasInput) -> AppModel {
        if input.dragged && input.pointer is Some {
            self.erase_near(input.pointer->0)
        } else {
            self
        }
    }

    /// One frame of pointer input on the canvas, interpreted with the active tool. The mouse
    /// tool ignores it.
    pub open spec fn draw_canvas(self, input: CanvasInput) -> AppModel {
        match self.tool {
            Tool::Mouse => self,
            Tool::Pen => self.pen_input(input),
            Tool::Polygon => self.polygon_input(input),
            Tool::Text => self.text_input(input),
            Tool::Eraser => self.eraser_input(input),
        }
    }

    /// A tool shortcut: the tool is selected if its key was pressed.
    pub open spec fn press(self, pressed: bool, tool: Tool) -> AppModel {
        if pressed {
            self.set_tool(tool)
        } else {
            self
        }
    }

    /// The commands that `press` owes: the passthrough command of the tool change, if any.
    pub open spec fn press_commands(self, pressed: bool, tool: Tool) -> Seq<PlatformCommand> {
        if pressed {
            path_commands(self.tool, seq![tool])
        } else {
            Seq::empty()
        }
    }

    /// One frame of keyboard shortcuts: the tool keys are applied in the order pen, polygon,
    /// text, mouse, eraser, so the last pressed one wins; then the finish key closes the
    /// open polygon.
    pub open spec fn handle_shortcuts(self, keys: Shortcuts) -> AppModel {
        let s1 = self.press(keys.pen, Tool::Pen);
        let s2 = s1.press(keys.polygon, Tool::Polygon);
        let s3 = s2.press(keys.text, Tool::Text);
        let s4 = s3.press(keys.mouse, Tool::Mouse);
        let s5 = s4.press(keys.eraser, Tool::Eraser);
        if keys.enter {
            s5.finish_polygon()
        } else {
            s5
        }
    }

    /// The commands owed by one frame of keyboard shortcuts: those of selecting the tools whose
    /// keys were pressed one after the other, which is one passthrough command for each change
    /// that crosses between the mouse tool and another tool.
    pub open spec fn shortcut_commands(self, keys: Shortcuts) -> Seq<PlatformCommand> {
        path_commands(self.tool, pressed_tools(keys))
    }

    /// The state after one toolbar event.
    pub open spec fn toolbar(self, event: ToolbarEvent) -> AppModel {
        match event {
            ToolbarEvent::DragBar => self,
            ToolbarEvent::SelectTool(tool) => self.set_tool(tool),
            ToolbarEvent::PickColor(index) => self.pick_color(index),
            ToolbarEvent::SetThickness(value) => self.set_thickness(value),
            ToolbarEvent::EditDraft(draft) => self.set_text_draft(draft@),
            ToolbarEvent::Undo => self.undo(),
            ToolbarEvent::Redo => self.redo(),
            ToolbarEvent::Clear => self.clear(),
            ToolbarEvent::SetEraserSize(value) => self.set_eraser_size(value),
        }
    }

    /// The command owed by one toolbar event.
    pub open spec fn toolbar_command(self, event: ToolbarEvent) -> Option<PlatformCommand> {
        match event {
            ToolbarEvent::DragBar => Some(PlatformCommand::StartDrag),
            ToolbarEvent::SelectTool(tool) => passthrough_edge(self.tool, tool),
            _ => None,
        }
    }

    /// The line through the points of a gesture in progress, once there is more than one
    /// point, in the active colour and thickness.
    pub open spec fn gesture_line(self, points: Seq<Point>) -> Seq<ShapeModel> {
        if points.len() > 1 {
            seq![
                ShapeModel::Line { points, rgba: self.active_rgba(), thickness: self.thickness },
            ]
        } else {
            Seq::empty()
        }
    }

    /// What is painted over the items for the gesture in progress. Under the pen: the line
    /// of the stroke so far. Under the polygon tool: the line through the vertices clicked so
    /// far and a dot on each of them. Under the eraser: a ring of the eraser radius around
    /// the hovering pointer. Otherwise nothing.
    pub open spec fn overlay(self, hover: Option<Point>) -> Seq<ShapeModel> {
        match self.tool {
            Tool::Pen => self.gesture_line(self.drawing),
            Tool::Polygon => self.gesture_line(self.polygon_points) + vertex_dots(
                self.polygon_points,
                self.active_rgba(),
            ),
            Tool::Eraser => match hover {
                Some(center) => seq![ShapeModel::Ring { center, radius: self.eraser_size }],
                None => Seq::empty(),
            },
            _ => Seq::empty(),
        }
    }

    /// Everything that is painted in one frame, bottom first: the shapes of the committed
    /// items in z-order, then the overlay of the gesture in progress.
    pub open spec fn scene(self, hover: Option<Point>) -> Seq<ShapeModel> {
        item_shapes(self.history.items) + self.overlay(hover)
    }

    /// The state after one frame: the close key leaves it alone; otherwise the shortcuts are
    /// handled first, then the pointer input on the canvas.
    pub open spec fn update(self, input: FrameInput) -> AppModel {
        if input.escape {
            self
        } else {
            self.handle_shortcuts(input.keys).draw_canvas(input.canvas)
        }
    }

    /// The commands owed by one frame: the close key asks to close the window and nothing
    /// else; otherwise the commands of the shortcuts.
    pub open spec fn update_commands(self, input: FrameInput) -> Seq<PlatformCommand> {
        if input.escape {
            seq![PlatformCommand::Close]
        } else {
            self.shortcut_commands(input.keys)
        }
    }
}

/// The commands that the tool keys owe one by one, put together, are those of the path of the
/// pressed tools; and the tool that ends up active is the last of that path.
pub proof fn lemma_pressed_path(s: AppModel, keys: Shortcuts)
    ensures
        ({
            let s1 = s.press(keys.pen, Tool::Pen);
            let s2 = s1.press(keys.polygon, Tool::Polygon);
            let s3 = s2.press(keys.text, Tool::Text);
            let s4 = s3.press(keys.mouse, Tool::Mouse);
            let s5 = s4.press(keys.eraser, Tool::Eraser);
            &&& Seq::<PlatformCommand>::empty() + s.press_commands(keys.pen, Tool::Pen)
                + s1.press_commands(keys.polygon, Tool::Polygon) + s2.press_commands(
                keys.text,
                Tool::Text,
            ) + s3.press_commands(keys.mouse, Tool::Mouse) + s4.press_commands(
                keys.eraser,
                Tool::Eraser,
            ) == s.shortcut_commands(keys)
            &&& s5.tool == tool_after(s.tool, pressed_tools(keys))
        }),
{
    let none = Seq::<Tool>::empty();
    let pen = if keys.pen { none.push(Tool::Pen) } else { none };
    let polygon = if keys.polygon { pen.push(Tool::Polygon) } else { pen };
    let text = if keys.text { polygon.push(Tool::Text) } else { polygon };
    let mouse = if keys.mouse { text.push(Tool::Mouse) } else { text };
    let eraser = if keys.eraser { mouse.push(Tool::Eraser) } else { mouse };
    let s1 = s.press(keys.pen, Tool::Pen);
    let s2 = s1.press(keys.polygon, Tool::Polygon);
    let s3 = s2.press(keys.text, Tool::Text);
    let s4 = s3.press(keys.mouse, Tool::Mouse);
    lemma_path_extend(s.tool, none, Tool::Pen);
    lemma_path_extend(s1.tool, none, Tool::Polygon);
    lemma_path_extend(s.tool, pen, Tool::Polygon);
    lemma_path_extend(s2.tool, none, Tool::Text);
    lemma_path_extend(s.tool, polygon, Tool::Text);
    lemma_path_extend(s3.tool, none, Tool::Mouse);
    lemma_path_extend(s.tool, text, Tool::Mouse);
    lemma_path_extend(s4.tool, none, Tool::Eraser);
    lemma_path_extend(s.tool, mouse, Tool::Eraser);
    assert(eraser =~= pressed_tools(keys));
}

} // verus!
