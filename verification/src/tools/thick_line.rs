//! The thick line tool: a straight run of full blocks from one cell to
//! another, at any slope.

use vstd::prelude::*;
use crate::bresenham::{bresenham, bresenham_line};
use crate::buffer::Buffer;
use crate::marks::{clipped, glyphs, same_box, stroke, stroke_bounded, window, Mark};
use crate::tools::{finish_on_release, Command, Ends, KeyEvent, MouseEventKind, Segment};

verus! {

/// The glyph of a thick line: a number sign in ASCII mode, a full block
/// otherwise.
pub open spec fn thick_glyph(ascii_mode: bool) -> char {
    if ascii_mode {
        '#'
    } else {
        '█'
    }
}

/// The marks of the thick line between the two ends of `s`: its glyph in
/// each cell of the straight run from the start to the end.
pub open spec fn thick_line_marks(s: Segment, ascii_mode: bool) -> Seq<Mark> {
    if !s.started {
        Seq::empty()
    } else {
        glyphs(
            bresenham_line(
                (s.start.0 as usize, s.start.1 as usize),
                (s.end.0 as usize, s.end.1 as usize),
            ),
            thick_glyph(ascii_mode),
        )
    }
}

/// A straight run of full blocks between two cells.
pub struct ThickLine {
    ends: Ends,
}

impl View for ThickLine {
    type V = Segment;

    closed spec fn view(&self) -> Segment {
        self.ends@
    }
}

impl ThickLine {
    pub fn new() -> (tool: ThickLine)
        ensures
            tool@ == Segment::fresh(),
    {
        ThickLine { ends: Ends::new() }
    }

    pub fn mouse_event(&mut self, x: isize, y: isize, kind: MouseEventKind) -> (command: Command)
        ensures
            final(self)@ == old(self)@.after(x as int, y as int, kind),
            command == finish_on_release(kind),
    {
        self.ends.mouse_event(x, y, kind)
    }

    pub fn key_event(&mut self, event: KeyEvent) -> (command: Command)
        ensures
            final(self)@ == old(self)@,
            command == Command::NoOp,
    {
        Command::NoOp
    }

    pub fn bounding_box(&self) -> (found: Option<(usize, usize, usize, usize)>)
        ensures
            same_box(found, self@.bounding_box()),
    {
        self.ends.bounding_box()
    }

    pub fn complete(&self) -> (done: bool)
        ensures
            done == self@.is_complete(),
    {
        self.ends.complete()
    }

    pub fn render(&self, buffer: &mut Buffer, ascii_mode: bool)
        ensures
            final(buffer)@ == old(buffer)@.apply_all(thick_line_marks(self@, ascii_mode), ascii_mode),
    {
        if !self.ends.started() {
            return ;
        }
        let run = bresenham(self.ends.start(), self.ends.end());
        stroke(buffer, &run, if ascii_mode { '#' } else { '█' })
    }

    pub fn render_bounded(
        &self,
        min_x: usize,
        max_x: usize,
        min_y: usize,
        max_y: usize,
        buffer: &mut Buffer,
        ascii_mode: bool,
    )
        ensures
            final(buffer)@ == old(buffer)@.apply_all(
                clipped(thick_line_marks(self@, ascii_mode), window(min_x, max_x, min_y, max_y)),
                ascii_mode,
            ),
    {
        if !self.ends.started() {
            return ;
        }
        let run = bresenham(self.ends.start(), self.ends.end());
        stroke_bounded(buffer, &run, if ascii_mode { '#' } else { '█' }, min_x, max_x, min_y, max_y)
    }
}

} // verus!
