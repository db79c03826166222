//! The erase tool: a space in every cell that the pointer passed.

use vstd::prelude::*;
use crate::buffer::Buffer;
use crate::marks::{
    cells, clipped, frame, frame_of, glyphs, same_box, stroke, stroke_bounded, window,
};
use crate::tools::trail::{trail_event, Trail};
use crate::tools::{finish_on_release, Command, KeyEvent, MouseEventKind};

verus! {

/// The glyph that the erase tool leaves in each cell of its trail.
pub const BLANK: char = ' ';

/// A trail of spaces.
pub struct Erase {
    started: bool,
    points: Vec<(usize, usize)>,
    complete: bool,
}

impl View for Erase {
    type V = Trail;

    closed spec fn view(&self) -> Trail {
        Trail { started: self.started, points: self.points@, complete: self.complete }
    }
}

impl Erase {
    pub fn new() -> (tool: Erase)
        ensures
            tool@ == Trail::fresh(),
    {
        Erase { started: false, points: Vec::new(), complete: false }
    }

    pub fn mouse_event(&mut self, x: isize, y: isize, kind: MouseEventKind) -> (command: Command)
        ensures
            final(self)@ == old(self)@.after(x as int, y as int, kind),
            command == finish_on_release(kind),
    {
        trail_event(&mut self.started, &mut self.points, &mut self.complete, x, y, kind)
    }

    pub fn key_event(&mut self, event: KeyEvent) -> (command: Command)
        ensures
            final(self)@ == old(self)@,
            command == Command::NoOp,
    {
        Command::NoOp
    }

    /// The smallest rectangle around the trail, as `(min_x, max_x, min_y,
    /// max_y)`.
    pub fn bounding_box(&self) -> (found: Option<(usize, usize, usize, usize)>)
        ensures
            same_box(found, frame_of(cells(self@.points))),
    {
        frame(&self.points)
    }

    pub fn complete(&self) -> (done: bool)
        ensures
            done == self@.is_complete(),
    {
        self.started && self.complete
    }

    pub fn render(&self, buffer: &mut Buffer, ascii_mode: bool)
        ensures
            final(buffer)@ == old(buffer)@.apply_all(glyphs(self@.points, BLANK), ascii_mode),
    {
        stroke(buffer, &self.points, BLANK)
    }

    pub fn render_bounded(
        &self,
        min_x: usize,
        max_x: usize,
        min_y: usize,
        max_y: usize,
        buffer: &mut Buffer,
        ascii_mode: bool,
    )
        ensures
            final(buffer)@ == old(buffer)@.apply_all(
                clipped(glyphs(self@.points, BLANK), window(min_x, max_x, min_y, max_y)),
                ascii_mode,
            ),
    {
        stroke_bounded(buffer, &self.points, BLANK, min_x, max_x, min_y, max_y)
    }
}

} // verus!
