//! Annotation model and interaction state machine for a screen-annotation overlay.
//!
//! The overlay lets a user draw freehand strokes, polygons and text labels on top of the
//! desktop, take items back and restore them, erase them, and switch to a mouse tool under
//! which pointer input falls through to the windows underneath. This crate holds everything
//! such an overlay decides: how a gesture in progress is captured and when it becomes an item,
//! how undo and redo move items between two stacks, which items an eraser sample removes, and
//! which commands the windowing layer is owed. Opening the window, reading input and painting
//! are left to the host, which hands input in as plain values and paints the shapes it gets.
//!
//! Positions, thicknesses and radii are whole numbers of canvas units (logical pixels of the
//! overlay window), so that distances are compared exactly.
//!
//! Every function is verified against a contract over a mathematical model:
//!
//! - [`geometry`] and [`color`]: positions with the inclusive proximity test, and colours.
//! - [`item`]: the items, their validity and the eraser's hit test; [`shape`]: what is painted.
//! - [`history`]: the committed items and the redo stack.
//! - [`tool`]: the tools and the passthrough command that a tool change owes.
//! - [`text`]: the text of a label, with the placeholder for a blank draft.
//! - [`input`], [`model`] and [`session`]: the input of a frame, the model of the session
//!   with one transition per input event, and the executable session.
//! - [`laws`]: what holds of every history and session, proved over the models;
//!   [`seq_lemmas`]: the facts about sequences that these proofs rest on.

pub mod color;
pub mod geometry;
pub mod history;
pub mod input;
pub mod item;
pub mod laws;
pub mod model;
pub mod seq_lemmas;
pub mod session;
pub mod shape;
pub mod text;
pub mod tool;
