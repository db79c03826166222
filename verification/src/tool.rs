//! The tool: one of the drawing tools, behind one set of operations.

use vstd::prelude::*;
use crate::buffer::Buffer;
use crate::marks::{
    cells, clipped, frame_of, glyphs, lemma_clipped_touches, same_box, spots, touches, window, Mark,
    Window,
};
use crate::tools::block::{block_marks, Block};
use crate::tools::erase::{Erase, BLANK};
use crate::tools::freehand::{Freehand, INK};
use crate::tools::idle::Idle;
use crate::tools::line::{line_marks, Line};
use crate::tools::rectangle::{rectangle_marks, Rectangle};
use crate::tools::text::{Note, Text};
use crate::tools::thick_line::{thick_line_marks, ThickLine};
use crate::tools::trail::Trail;
use crate::tools::{
    finish_on_release, Command, KeyCode, KeyEvent, MouseEventKind, Segment, ToolSelect,
};

verus! {

/// One of the drawing tools, with the state that is its own.
pub enum Tool {
    Idle(Idle),
    Freehand(Freehand),
    Erase(Erase),
    Rectangle(Rectangle),
    Text(Text),
    Line(Line),
    ThickLine(ThickLine),
    Block(Block),
}

/// What a tool is to its contracts: which tool it is, and its state.
pub enum Stroke {
    Idle,
    Freehand(Trail),
    Erase(Trail),
    Rectangle(Segment),
    Text(Note),
    Line(Segment),
    ThickLine(Segment),
    Block(Seq<(usize, usize, char)>),
}

impl Stroke {
    /// The fresh tool of a selection.
    pub open spec fn fresh(selection: ToolSelect) -> Stroke {
        match selection {
            ToolSelect::Idle => Stroke::Idle,
            ToolSelect::Freehand => Stroke::Freehand(Trail::fresh()),
            ToolSelect::Erase => Stroke::Erase(Trail::fresh()),
            ToolSelect::Rectangle => Stroke::Rectangle(Segment::fresh()),
            ToolSelect::Text => Stroke::Text(Note::fresh()),
            ToolSelect::Line => Stroke::Line(Segment::fresh()),
            ToolSelect::ThickLine => Stroke::ThickLine(Segment::fresh()),
        }
    }

    /// The tool after a pointer event at `(x, y)`.
    pub open spec fn after_pointer(self, x: int, y: int, kind: MouseEventKind) -> Stroke {
        match self {
            Stroke::Idle => self,
            Stroke::Freehand(t) => Stroke::Freehand(t.after(x, y, kind)),
            Stroke::Erase(t) => Stroke::Erase(t.after(x, y, kind)),
            Stroke::Rectangle(s) => Stroke::Rectangle(s.after(x, y, kind)),
            Stroke::Text(n) => Stroke::Text(n.pressed(x, y, kind)),
            Stroke::Line(s) => Stroke::Line(s.after(x, y, kind)),
            Stroke::ThickLine(s) => Stroke::ThickLine(s.after(x, y, kind)),
            Stroke::Block(_) => self,
        }
    }

    /// What the tool asks for after a pointer event.
    pub open spec fn pointer_command(self, kind: MouseEventKind) -> Command {
        match self {
            Stroke::Idle => Command::ResetFocus,
            Stroke::Text(n) => n.press_command(kind),
            Stroke::Block(_) => Command::NoOp,
            _ => finish_on_release(kind),
        }
    }

    /// The tool after a key: only the text tool takes keys.
    pub open spec fn after_key(self, code: KeyCode) -> Stroke {
        match self {
            Stroke::Text(n) => Stroke::Text(n.typed(code)),
            _ => self,
        }
    }

    /// What the tool asks for after a key.
    pub open spec fn key_command(self, code: KeyCode) -> Command {
        match self {
            Stroke::Text(n) => n.key_command(code),
            _ => Command::NoOp,
        }
    }

    /// Whether the tool holds a stroke that is worth keeping: a trail or a
    /// shape that was started and then dragged or pressed again, a text that
    /// was ended, a picture. The idle tool never does.
    pub open spec fn complete(self) -> bool {
        match self {
            Stroke::Idle => false,
            Stroke::Freehand(t) => t.is_complete(),
            Stroke::Erase(t) => t.is_complete(),
            Stroke::Rectangle(s) => s.is_complete(),
            Stroke::Text(n) => n.finished,
            Stroke::Line(s) => s.is_complete(),
            Stroke::ThickLine(s) => s.is_complete(),
            Stroke::Block(_) => true,
        }
    }

    /// The rectangle that the tool reports around what it has placed, as
    /// `(min_x, max_x, min_y, max_y)`: none where it has placed nothing.
    pub open spec fn bounding_box(self) -> Option<(int, int, int, int)> {
        match self {
            Stroke::Idle => None,
            Stroke::Freehand(t) => frame_of(cells(t.points)),
            Stroke::Erase(t) => frame_of(cells(t.points)),
            Stroke::Rectangle(s) => s.bounding_box(),
            Stroke::Text(n) => n.bounding_box(),
            Stroke::Line(s) => s.bounding_box(),
            Stroke::ThickLine(s) => s.bounding_box(),
            Stroke::Block(chars) => frame_of(spots(block_marks(chars))),
        }
    }

    /// The marks that the tool leaves on a canvas, in the order in which it
    /// makes them.
    pub open spec fn marks(self, ascii_mode: bool) -> Seq<Mark> {
        match self {
            Stroke::Idle => Seq::empty(),
            Stroke::Freehand(t) => glyphs(t.points, INK),
            Stroke::Erase(t) => glyphs(t.points, BLANK),
            Stroke::Rectangle(s) => rectangle_marks(s),
            Stroke::Text(n) => n.marks(),
            Stroke::Line(s) => line_marks(s),
            Stroke::ThickLine(s) => thick_line_marks(s, ascii_mode),
            Stroke::Block(chars) => block_marks(chars),
        }
    }
}

impl View for Tool {
    type V = Stroke;

    open spec fn view(&self) -> Stroke {
        match self {
            Tool::Idle(_) => Stroke::Idle,
            Tool::Freehand(t) => Stroke::Freehand(t@),
            Tool::Erase(t) => Stroke::Erase(t@),
            Tool::Rectangle(t) => Stroke::Rectangle(t@),
            Tool::Text(t) => Stroke::Text(t@),
            Tool::Line(t) => Stroke::Line(t@),
            Tool::ThickLine(t) => Stroke::ThickLine(t@),
            Tool::Block(t) => Stroke::Block(t@),
        }
    }
}

impl ToolSelect {
    /// A fresh tool of this selection.
    pub fn to_tool(&self) -> (tool: Tool)
        ensures
            tool@ == Stroke::fresh(*self),
    {
        match self {
            ToolSelect::Idle => Tool::Idle(Idle::new()),
            ToolSelect::Freehand => Tool::Freehand(Freehand::new()),
            ToolSelect::Erase => Tool::Erase(Erase::new()),
            ToolSelect::Rectangle => Tool::Rectangle(Rectangle::new()),
            ToolSelect::Text => Tool::Text(Text::new()),
            ToolSelect::Line => Tool::Line(Line::new()),
            ToolSelect::ThickLine => Tool::ThickLine(ThickLine::new()),
        }
    }
}

impl Tool {
    pub fn mouse_event(&mut self, x: isize, y: isize, kind: MouseEventKind) -> (command: Command)
        ensures
            final(self)@ == old(self)@.after_pointer(x as int, y as int, kind),
            command == old(self)@.pointer_command(kind),
    {
        match self {
            Tool::Idle(t) => t.mouse_event(x, y, kind),
            Tool::Freehand(t) => t.mouse_event(x, y, kind),
            Tool::Erase(t) => t.mouse_event(x, y, kind),
            Tool::Rectangle(t) => t.mouse_event(x, y, kind),
            Tool::Text(t) => t.mouse_event(x, y, kind),
            Tool::Line(t) => t.mouse_event(x, y, kind),
            Tool::ThickLine(t) => t.mouse_event(x, y, kind),
            Tool::Block(t) => t.mouse_event(x, y, kind),
        }
    }

    pub fn key_event(&mut self, event: KeyEvent) -> (command: Command)
        ensures
            final(self)@ == old(self)@.after_key(event.code),
            command == old(self)@.key_command(event.code),
    {
        match self {
            Tool::Idle(t) => t.key_event(event),
            Tool::Freehand(t) => t.key_event(event),
            Tool::Erase(t) => t.key_event(event),
            Tool::Rectangle(t) => t.key_event(event),
            Tool::Text(t) => t.key_event(event),
            Tool::Line(t) => t.key_event(event),
            Tool::ThickLine(t) => t.key_event(event),
            Tool::Block(t) => t.key_event(event),
        }
    }

    pub fn bounding_box(&self) -> (found: Option<(usize, usize, usize, usize)>)
        ensures
            same_box(found, self@.bounding_box()),
    {
        match self {
            Tool::Idle(t) => t.bounding_box(),
            Tool::Freehand(t) => t.bounding_box(),
            Tool::Erase(t) => t.bounding_box(),
            Tool::Rectangle(t) => t.bounding_box(),
            Tool::Text(t) => t.bounding_box(),
            Tool::Line(t) => t.bounding_box(),
            Tool::ThickLine(t) => t.bounding_box(),
            Tool::Block(t) => t.bounding_box(),
        }
    }

    pub fn render(&self, buffer: &mut Buffer, ascii_mode: bool)
        ensures
            final(buffer)@ == old(buffer)@.apply_all(self@.marks(ascii_mode), ascii_mode),
    {
        match self {
            Tool::Idle(t) => t.render(buffer, ascii_mode),
            Tool::Freehand(t) => t.render(buffer, ascii_mode),
            Tool::Erase(t) => t.render(buffer, ascii_mode),
            Tool::Rectangle(t) => t.render(buffer, ascii_mode),
            Tool::Text(t) => t.render(buffer, ascii_mode),
            Tool::Line(t) => t.render(buffer, ascii_mode),
            Tool::ThickLine(t) => t.render(buffer, ascii_mode),
            Tool::Block(t) => t.render(buffer, ascii_mode),
        }
    }

    pub fn render_bounded(
        &self,
        min_x: usize,
        max_x: usize,
        min_y: usize,
        max_y: usize,
        buffer: &mut Buffer,
        ascii_mode: bool,
    )
        ensures
            final(buffer)@ == old(buffer)@.apply_all(
                clipped(self@.marks(ascii_mode), window(min_x, max_x, min_y, max_y)),
                ascii_mode,
            ),
    {
        match self {
            Tool::Idle(t) => t.render_bounded(min_x, max_x, min_y, max_y, buffer, ascii_mode),
            Tool::Freehand(t) => t.render_bounded(min_x, max_x, min_y, max_y, buffer, ascii_mode),
            Tool::Erase(t) => t.render_bounded(min_x, max_x, min_y, max_y, buffer, ascii_mode),
            Tool::Rectangle(t) => t.render_bounded(min_x, max_x, min_y, max_y, buffer, ascii_mode),
            Tool::Text(t) => t.render_bounded(min_x, max_x, min_y, max_y, buffer, ascii_mode),
            Tool::Line(t) => t.render_bounded(min_x, max_x, min_y, max_y, buffer, ascii_mode),
            Tool::ThickLine(t) => t.render_bounded(min_x, max_x, min_y, max_y, buffer, ascii_mode),
            Tool::Block(t) => t.render_bounded(min_x, max_x, min_y, max_y, buffer, ascii_mode),
        }
    }

    pub fn complete(&self) -> (done: bool)
        ensures
            done == self@.complete(),
    {
        match self {
            Tool::Idle(t) => t.complete(),
            Tool::Freehand(t) => t.complete(),
            Tool::Erase(t) => t.complete(),
            Tool::Rectangle(t) => t.complete(),
            Tool::Text(t) => t.complete(),
            Tool::Line(t) => t.complete(),
            Tool::ThickLine(t) => t.complete(),
            Tool::Block(t) => t.complete(),
        }
    }
}

/// Whatever the tool and the window, the clipped rendering marks the cells
/// that the whole rendering marks inside the window, and no others.
pub proof fn lemma_clipped_render_cells(stroke: Stroke, ascii_mode: bool, w: Window, x: int, y: int)
    ensures
        touches(clipped(stroke.marks(ascii_mode), w), x, y) <==> touches(stroke.marks(ascii_mode), x, y)
            && w.contains(x, y),
{
    lemma_clipped_touches(stroke.marks(ascii_mode), w, x, y);
}

} // verus!
