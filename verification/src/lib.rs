//! A character-grid drawing engine: a growable canvas of cells, the
//! box-drawing junction codec, the drawing tools with their pointer and key
//! state machines, and the history of strokes that a workspace replays into
//! a canvas on every frame.

pub mod box_drawing;
pub mod bresenham;
pub mod buffer;
pub mod elements;
pub mod marks;
pub mod state;
pub mod strings;
pub mod tool;
pub mod tools;
