//! The input that the host hands to the session: what the keyboard, the pointer and the
//! toolbar did, as plain values.

use vstd::prelude::*;
use crate::geometry::Point;
use crate::tool::Tool;

verus! {

/// The keyboard shortcuts pressed during one frame.
#[derive(Clone, Copy, Debug, PartialEq, Eq, Structural)]
pub struct Shortcuts {
    pub pen: bool,
    pub polygon: bool,
    pub text: bool,
    pub mouse: bool,
    pub eraser: bool,
    /// The polygon-finish key.
    pub enter: bool,
}

/// What the pointer did on the canvas during one frame.
#[derive(Clone, Copy, Debug, PartialEq, Eq, Structural)]
pub struct CanvasInput {
    pub drag_started: bool,
    pub dragged: bool,
    pub drag_stopped: bool,
    pub clicked: bool,
    /// Where the interacting pointer is, if it is over the canvas.
    pub pointer: Option<Point>,
}

/// The input of one frame apart from the toolbar.
#[derive(Clone, Copy, Debug, PartialEq, Eq, Structural)]
pub struct FrameInput {
    /// The close key.
    pub escape: bool,
    pub keys: Shortcuts,
    pub canvas: CanvasInput,
}

/// One interaction with the toolbar.
#[derive(Clone, Debug, PartialEq, Eq)]
pub enum ToolbarEvent {
    /// The drag handle is being dragged.
    DragBar,
    /// A tool button was clicked, or the pen menu is open.
    SelectTool(Tool),
    /// The palette entry with this index was clicked.
    PickColor(usize),
    /// The thickness slider was moved to this value.
    SetThickness(u32),
    /// The draft text was edited to this value.
    EditDraft(String),
    Undo,
    Redo,
    Clear,
    /// The eraser-size slider was moved to this value.
    SetEraserSize(u32),
}

/// The tools whose shortcut keys were pressed, in the order in which the keys are handled:
/// pen, polygon, text, mouse, eraser.
pub open spec fn pressed_tools(keys: Shortcuts) -> Seq<Tool> {
    (if keys.pen { seq![Tool::Pen] } else { Seq::empty() })
        + (if keys.polygon { seq![Tool::Polygon] } else { Seq::empty() })
        + (if keys.text { seq![Tool::Text] } else { Seq::empty() })
        + (if keys.mouse { seq![Tool::Mouse] } else { Seq::empty() })
        + (if keys.eraser { seq![Tool::Eraser] } else { Seq::empty() })
}

} // verus!
