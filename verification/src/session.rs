//! The interactive session: tool and style settings, the gesture buffers and the history, with
//! one transition per input event.
//!
//! The host gathers key presses, pointer input on the canvas and toolbar events, hands them to
//! the session as plain values and carries out the platform commands that come back.

use vstd::prelude::*;
use crate::color::{default_palette, default_palette_spec, Rgba};
use crate::geometry::{copy_points, Point};
use crate::history::{all_valid, History};
use crate::input::{CanvasInput, FrameInput, Shortcuts, ToolbarEvent};
use crate::item::{models, CanvasItem, ItemModel, PolygonShape, StrokePath, MIN_POLYGON_POINTS};
use crate::model::{
    clamp, lemma_pressed_path, vertex_dots, AppModel, DEFAULT_ERASER_SIZE, DEFAULT_THICKNESS,
    ERASER_MAX, ERASER_MIN, THICKNESS_MAX, THICKNESS_MIN,
};
use crate::shape::{shape_views, Shape};
use crate::text::label_for;
use crate::tool::{
    lemma_path_extend, passthrough_command, passthrough_edge, PlatformCommand, Tool,
};

verus! {

/// The state of one interactive session. It is well formed at all times, in the sense of
/// [`AppModel::wf`].
pub struct OpenPenApp {
    palette: Vec<Rgba>,
    active_color: usize,
    thickness: u32,
    tool: Tool,
    drawing: Vec<Point>,
    polygon_points: Vec<Point>,
    history: History,
    eraser_size: u32,
    text_draft: String,
}

impl View for OpenPenApp {
    type V = AppModel;

    closed spec fn view(&self) -> AppModel {
        AppModel {
            palette: self.palette@,
            active_color: self.active_color as int,
            thickness: self.thickness,
            tool: self.tool,
            drawing: self.drawing@,
            polygon_points: self.polygon_points@,
            history: self.history@,
            eraser_size: self.eraser_size,
            text_draft: self.text_draft@,
        }
    }
}

impl OpenPenApp {
    #[verifier::type_invariant]
    closed spec fn inv(&self) -> bool {
        self@.wf()
    }

    /// A fresh session over `palette`, or nothing where the palette is empty.
    pub fn new(palette: Vec<Rgba>) -> (app: Option<OpenPenApp>)
        ensures
            app is Some <==> palette@.len() > 0,
            app matches Some(a) ==> a@ == AppModel::fresh(palette@) && a@.wf(),
    {
        if palette.len() == 0 {
            return None;
        }
        let history = History::new();
        Some(
            OpenPenApp {
                palette,
                active_color: 0,
                thickness: DEFAULT_THICKNESS,
                tool: Tool::Pen,
                drawing: Vec::new(),
                polygon_points: Vec::new(),
                history,
                eraser_size: DEFAULT_ERASER_SIZE,
                text_draft: "Text".to_string(),
            },
        )
    }

    pub fn tool(&self) -> (tool: Tool)
        ensures
            tool == self@.tool,
    {
        self.tool
    }

    /// Whether pointer input falls through to the windows underneath.
    pub fn passthrough(&self) -> (on: bool)
        ensures
            on == self@.passthrough(),
    {
        self.tool.wants_passthrough()
    }

    pub fn palette(&self) -> (palette: &Vec<Rgba>)
        ensures
            palette@ == self@.palette,
            palette@.len() > 0,
    {
        proof {
            use_type_invariant(self);
        }
        &self.palette
    }

    /// Index of the active colour in the palette.
    pub fn active_color(&self) -> (index: usize)
        ensures
            index == self@.active_color,
            index < self@.palette.len(),
    {
        proof {
            use_type_invariant(self);
        }
        self.active_color
    }

    /// The colour that new items get.
    pub fn active_rgba(&self) -> (rgba: Rgba)
        ensures
            rgba == self@.active_rgba(),
    {
        proof {
            use_type_invariant(self);
        }
        self.palette[self.active_color]
    }

    pub fn thickness(&self) -> (thickness: u32)
        ensures
            thickness == self@.thickness,
            THICKNESS_MIN <= thickness <= THICKNESS_MAX,
    {
        proof {
            use_type_invariant(self);
        }
        self.thickness
    }

    pub fn eraser_size(&self) -> (radius: u32)
        ensures
            radius == self@.eraser_size,
            ERASER_MIN <= radius <= ERASER_MAX,
    {
        proof {
            use_type_invariant(self);
        }
        self.eraser_size
    }

    pub fn text_draft(&self) -> (draft: &String)
        ensures
            draft@ == self@.text_draft,
    {
        &self.text_draft
    }

    /// The points of the pen stroke in progress. There are none unless the pen is active.
    pub fn drawing(&self) -> (points: &Vec<Point>)
        ensures
            points@ == self@.drawing,
            self@.tool != Tool::Pen ==> points@.len() == 0,
    {
        proof {
            use_type_invariant(self);
        }
        &self.drawing
    }

    /// The vertices of the open polygon.
    pub fn polygon_points(&self) -> (points: &Vec<Point>)
        ensures
            points@ == self@.polygon_points,
    {
        &self.polygon_points
    }

    pub fn history(&self) -> (history: &History)
        ensures
            history@ == self@.history,
            history@.wf(),
    {
        proof {
            use_type_invariant(self);
        }
        &self.history
    }

    /// The committed items, bottom first.
    pub fn items(&self) -> (items: &Vec<CanvasItem>)
        ensures
            models(items@) == self@.history.items,
            all_valid(self@.history.items),
    {
        self.history.items()
    }

    /// Adds the line through `points` to `shapes`, once there is more than one point.
    fn push_gesture_line(&self, points: &Vec<Point>, shapes: &mut Vec<Shape>)
        ensures
            shape_views(final(shapes)@) == shape_views(old(shapes)@) + self@.gesture_line(
                points@,
            ),
    {
        proof {
            use_type_invariant(self);
        }
        if points.len() > 1 {
            let line = Shape::Line {
                points: copy_points(points),
                rgba: self.palette[self.active_color],
                thickness: self.thickness,
            };
            shapes.push(line);
        }
    }

    /// Adds what is painted for the gesture in progress to `shapes`.
    fn push_overlay(&self, hover: Option<Point>, shapes: &mut Vec<Shape>)
        ensures
            shape_views(final(shapes)@) == shape_views(old(shapes)@) + self@.overlay(hover),
    {
        proof {
            use_type_invariant(self);
        }
        let ghost before = shape_views(shapes@);
        match self.tool {
            Tool::Pen => self.push_gesture_line(&self.drawing, shapes),
            Tool::Polygon => {
                self.push_gesture_line(&self.polygon_points, shapes);
                let rgba = self.palette[self.active_color];
                let ghost line = self@.gesture_line(self.polygon_points@);
                let ghost dots = vertex_dots(self.polygon_points@, rgba);
                let mut i: usize = 0;
                while i < self.polygon_points.len()
                    invariant
                        i <= self.polygon_points.len(),
                        dots == vertex_dots(self.polygon_points@, rgba),
                        shape_views(shapes@) == before + line + dots.take(i as int),
                    decreases self.polygon_points.len() - i,
                {
                    let dot = Shape::Dot { center: self.polygon_points[i], rgba };
                    let ghost so_far = shape_views(shapes@);
                    shapes.push(dot);
                    assert(so_far.push(dot@) =~= before + line + dots.take(i as int + 1));
                    i += 1;
                }
            },
            Tool::Eraser => {
                if let Some(center) = hover {
                    shapes.push(Shape::Ring { center, radius: self.eraser_size });
                }
            },
            _ => {},
        }
    }

    /// What is painted over the items for the gesture in progress, with the pointer hovering
    /// at `hover`.
    pub fn overlay(&self, hover: Option<Point>) -> (shapes: Vec<Shape>)
        ensures
            shape_views(shapes@) == self@.overlay(hover),
    {
        let mut shapes: Vec<Shape> = Vec::new();
        self.push_overlay(hover, &mut shapes);
        shapes
    }

    /// Everything to paint in one frame, bottom first, with the pointer hovering at `hover`.
    pub fn scene(&self, hover: Option<Point>) -> (shapes: Vec<Shape>)
        ensures
            shape_views(shapes@) == self@.scene(hover),
    {
        let items = self.history.items();
        let ghost all = models(items@);
        let ghost shape_of = |item: ItemModel| item.shape();
        let mut shapes: Vec<Shape> = Vec::new();
        let mut i: usize = 0;
        while i < items.len()
            invariant
                i <= items.len(),
                all == models(items@),
                shape_of == (|item: ItemModel| item.shape()),
                shape_views(shapes@) == all.take(i as int).filter_map(shape_of),
            decreases items.len() - i,
        {
            proof {
                all.lemma_filter_map_take_succ(shape_of, i as int);
            }
            if let Some(shape) = items[i].draw() {
                shapes.push(shape);
            }
            i += 1;
        }
        assert(all.take(i as int) =~= all);
        self.push_overlay(hover, &mut shapes);
        shapes
    }

    /// Changes the active tool. Returns the passthrough command that the change calls for.
    pub fn set_tool(&mut self, tool: Tool) -> (command: Option<PlatformCommand>)
        ensures
            final(self)@ == old(self)@.set_tool(tool),
            final(self)@.wf(),
            command == passthrough_edge(old(self)@.tool, tool),
    {
        proof {
            use_type_invariant(&*self);
        }
        let command = passthrough_command(self.tool, tool);
        if tool != Tool::Pen {
            self.drawing = Vec::new();
        }
        self.tool = tool;
        command
    }

    /// Makes the palette entry `index` the active colour, if there is such an entry.
    pub fn pick_color(&mut self, index: usize)
        ensures
            final(self)@ == old(self)@.pick_color(index),
            final(self)@.wf(),
    {
        proof {
            use_type_invariant(&*self);
        }
        if index < self.palette.len() {
            self.active_color = index;
        }
    }

    /// Sets the line thickness, moved into `THICKNESS_MIN..=THICKNESS_MAX`.
    pub fn set_thickness(&mut self, value: u32)
        ensures
            final(self)@ == old(self)@.set_thickness(value),
            final(self)@.wf(),
    {
        proof {
            use_type_invariant(&*self);
        }
        self.thickness = clamp_to(value, THICKNESS_MIN, THICKNESS_MAX);
    }

    /// Sets the eraser radius, moved into `ERASER_MIN..=ERASER_MAX`.
    pub fn set_eraser_size(&mut self, value: u32)
        ensures
            final(self)@ == old(self)@.set_eraser_size(value),
            final(self)@.wf(),
    {
        proof {
            use_type_invariant(&*self);
        }
        self.eraser_size = clamp_to(value, ERASER_MIN, ERASER_MAX);
    }

    /// Replaces the draft text.
    pub fn set_text_draft(&mut self, draft: String)
        ensures
            final(self)@ == old(self)@.set_text_draft(draft@),
            final(self)@.wf(),
    {
        proof {
            use_type_invariant(&*self);
        }
        self.text_draft = draft;
    }

    /// Commits `item` to the history. Returns whether it was stored: an invalid item is
    /// discarded.
    pub fn commit(&mut self, item: CanvasItem) -> (stored: bool)
        ensures
            final(self)@ == old(self)@.commit(item@),
            final(self)@.wf(),
            stored == item@.valid(),
    {
        proof {
            use_type_invariant(&*self);
        }
        // The history is moved out while it changes, so that the session is well formed
        // at every step.
        let mut history = History::new();
        core::mem::swap(&mut history, &mut self.history);
        let stored = history.commit(item);
        self.history = history;
        stored
    }

    /// Takes back the top committed item. Returns whether there was one.
    pub fn undo(&mut self) -> (undone: bool)
        ensures
            final(self)@ == old(self)@.undo(),
            final(self)@.wf(),
            undone == (old(self)@.history.items.len() > 0),
    {
        proof {
            use_type_invariant(&*self);
        }
        let mut history = History::new();
        core::mem::swap(&mut history, &mut self.history);
        let undone = history.undo();
        self.history = history;
        undone
    }

    /// Restores the most recently undone item. Returns whether there was one.
    pub fn redo(&mut self) -> (redone: bool)
        ensures
            final(self)@ == old(self)@.redo(),
            final(self)@.wf(),
            redone == (old(self)@.history.redo.len() > 0),
    {
        proof {
            use_type_invariant(&*self);
        }
        let mut history = History::new();
        core::mem::swap(&mut history, &mut self.history);
        let redone = history.redo();
        self.history = history;
        redone
    }

    /// Empties the committed items, the redo stack and both gesture buffers.
    pub fn clear(&mut self)
        ensures
            final(self)@ == old(self)@.clear(),
            final(self)@.wf(),
    {
        proof {
            use_type_invariant(&*self);
        }
        self.history = History::new();
        self.drawing = Vec::new();
        self.polygon_points = Vec::new();
    }

    /// The finish signal for the open polygon. Returns whether a polygon was committed.
    pub fn finish_polygon(&mut self) -> (committed: bool)
        ensures
            final(self)@ == old(self)@.finish_polygon(),
            final(self)@.wf(),
            committed == old(self)@.can_finish_polygon(),
    {
        proof {
            use_type_invariant(&*self);
        }
        if self.tool == Tool::Polygon && self.polygon_points.len() >= MIN_POLYGON_POINTS {
            let mut points: Vec<Point> = Vec::new();
            core::mem::swap(&mut points, &mut self.polygon_points);
            let item = CanvasItem::Polygon(
                PolygonShape {
                    points,
                    rgba: self.palette[self.active_color],
                    thickness: self.thickness,
                },
            );
            self.commit(item);
            true
        } else {
            false
        }
    }

    /// One eraser sample at `center`, with the current eraser radius. Returns how many items
    /// were removed.
    pub fn erase_near(&mut self, center: Point) -> (removed: usize)
        ensures
            final(self)@ == old(self)@.erase_near(center),
            final(self)@.wf(),
            removed == old(self)@.history.items.len() - final(self)@.history.items.len(),
    {
        proof {
            use_type_invariant(&*self);
        }
        let mut history = History::new();
        core::mem::swap(&mut history, &mut self.history);
        let removed = history.erase(center, self.eraser_size);
        self.history = history;
        removed
    }

    /// Pointer input on the canvas under the pen.
    fn pen_input(&mut self, input: &CanvasInput)
        requires
            old(self)@.tool == Tool::Pen,
        ensures
            final(self)@ == old(self)@.pen_input(*input),
            final(self)@.wf(),
    {
        proof {
            use_type_invariant(&*self);
        }
        let mut buffer: Vec<Point> = Vec::new();
        core::mem::swap(&mut buffer, &mut self.drawing);
        if input.drag_started {
            buffer = Vec::new();
        }
        if input.dragged {
            if let Some(pos) = input.pointer {
                buffer.push(pos);
            }
        }
        if input.drag_stopped && buffer.len() > 1 {
            let item = CanvasItem::Stroke(
                StrokePath {
                    points: buffer,
                    rgba: self.palette[self.active_color],
                    thickness: self.thickness,
                },
            );
            self.commit(item);
        } else {
            self.drawing = buffer;
        }
    }

    /// Pointer input on the canvas under the polygon tool.
    fn polygon_input(&mut self, input: &CanvasInput)
        ensures
            final(self)@ == old(self)@.polygon_input(*input),
            final(self)@.wf(),
    {
        proof {
            use_type_invariant(&*self);
        }
        if input.clicked {
            if let Some(pos) = input.pointer {
                let mut points: Vec<Point> = Vec::new();
                core::mem::swap(&mut points, &mut self.polygon_points);
                points.push(pos);
                self.polygon_points = points;
            }
        }
    }

    /// Pointer input on the canvas under the text tool.
    fn text_input(&mut self, input: &CanvasInput)
        ensures
            final(self)@ == old(self)@.text_input(*input),
            final(self)@.wf(),
    {
        proof {
            use_type_invariant(&*self);
        }
        if input.clicked {
            if let Some(pos) = input.pointer {
                let item = CanvasItem::text(
                    pos,
                    label_for(&self.text_draft),
                    self.palette[self.active_color],
                );
                self.commit(item);
            }
        }
    }

    /// One frame of pointer input on the canvas, interpreted with the active tool.
    pub fn draw_canvas(&mut self, input: &CanvasInput)
        ensures
            final(self)@ == old(self)@.draw_canvas(*input),
            final(self)@.wf(),
    {
        proof {
            use_type_invariant(&*self);
        }
        match self.tool {
            Tool::Mouse => {},
            Tool::Pen => self.pen_input(input),
            Tool::Polygon => self.polygon_input(input),
            Tool::Text => self.text_input(input),
            Tool::Eraser => {
                if input.dragged {
                    if let Some(pos) = input.pointer {
                        self.erase_near(pos);
                    }
                }
            },
        }
    }

    /// A tool shortcut: selects `tool` if its key was pressed and notes the command owed.
    fn press(&mut self, pressed: bool, tool: Tool, commands: &mut Vec<PlatformCommand>)
        ensures
            final(self)@ == old(self)@.press(pressed, tool),
            final(self)@.wf(),
            final(commands)@ == old(commands)@ + old(self)@.press_commands(pressed, tool),
    {
        proof {
            use_type_invariant(&*self);
            lemma_path_extend(self@.tool, Seq::empty(), tool);
        }
        if pressed {
            if let Some(command) = self.set_tool(tool) {
                commands.push(command);
            }
        }
    }

    /// One frame of keyboard shortcuts. Returns the commands owed, in order.
    pub fn handle_shortcuts(&mut self, keys: &Shortcuts) -> (commands: Vec<PlatformCommand>)
        ensures
            final(self)@ == old(self)@.handle_shortcuts(*keys),
            final(self)@.wf(),
            commands@ == old(self)@.shortcut_commands(*keys),
    {
        let mut commands: Vec<PlatformCommand> = Vec::new();
        self.press(keys.pen, Tool::Pen, &mut commands);
        self.press(keys.polygon, Tool::Polygon, &mut commands);
        self.press(keys.text, Tool::Text, &mut commands);
        self.press(keys.mouse, Tool::Mouse, &mut commands);
        self.press(keys.eraser, Tool::Eraser, &mut commands);
        if keys.enter {
            self.finish_polygon();
        }
        proof {
            use_type_invariant(&*self);
            lemma_pressed_path(old(self)@, *keys);
        }
        commands
    }

    /// One toolbar event. Returns the command owed.
    pub fn toolbar(&mut self, event: ToolbarEvent) -> (command: Option<PlatformCommand>)
        ensures
            final(self)@ == old(self)@.toolbar(event),
            final(self)@.wf(),
            command == old(self)@.toolbar_command(event),
    {
        proof {
            use_type_invariant(&*self);
        }
        match event {
            ToolbarEvent::DragBar => Some(PlatformCommand::StartDrag),
            ToolbarEvent::SelectTool(tool) => self.set_tool(tool),
            ToolbarEvent::PickColor(index) => {
                self.pick_color(index);
                None
            },
            ToolbarEvent::SetThickness(value) => {
                self.set_thickness(value);
                None
            },
            ToolbarEvent::EditDraft(draft) => {
                self.set_text_draft(draft);
                None
            },
            ToolbarEvent::Undo => {
                self.undo();
                None
            },
            ToolbarEvent::Redo => {
                self.redo();
                None
            },
            ToolbarEvent::Clear => {
                self.clear();
                None
            },
            ToolbarEvent::SetEraserSize(value) => {
                self.set_eraser_size(value);
                None
            },
        }
    }

    /// One frame: the close key, else the shortcuts and then the pointer input on the canvas.
    /// Returns the commands owed, in order.
    pub fn update(&mut self, input: &FrameInput) -> (commands: Vec<PlatformCommand>)
        ensures
            final(self)@ == old(self)@.update(*input),
            final(self)@.wf(),
            commands@ == old(self)@.update_commands(*input),
    {
        if input.escape {
            proof {
                use_type_invariant(&*self);
            }
            let mut commands: Vec<PlatformCommand> = Vec::new();
            commands.push(PlatformCommand::Close);
            return commands;
        }
        let commands = self.handle_shortcuts(&input.keys);
        self.draw_canvas(&input.canvas);
        commands
    }
}

impl Default for OpenPenApp {
    /// A fresh session over the default palette.
    fn default() -> (app: OpenPenApp)
        ensures
            app@ == AppModel::fresh(default_palette_spec()),
            app@.wf(),
    {
        let history = History::new();
        OpenPenApp {
            palette: default_palette(),
            active_color: 0,
            thickness: DEFAULT_THICKNESS,
            tool: Tool::Pen,
            drawing: Vec::new(),
            polygon_points: Vec::new(),
            history,
            eraser_size: DEFAULT_ERASER_SIZE,
            text_draft: "Text".to_string(),
        }
    }
}

/// Moves `value` to the nearest value of `lo..=hi`.
pub fn clamp_to(value: u32, lo: u32, hi: u32) -> (clamped: u32)
    ensures
        clamped == clamp(value, lo, hi),
{
    if value < lo {
        lo
    } else if value > hi {
        hi
    } else {
        value
    }
}

} // verus!
