//! The drawing tools: what they have in common, and the closed set of them.

use vstd::prelude::*;
use crate::marks::same_box;

pub mod block;
pub mod erase;
pub mod freehand;
pub mod idle;
pub mod line;
pub mod rectangle;
pub mod text;
pub mod thick_line;
pub mod trail;

verus! {

/// A button of the pointer.
#[derive(Clone, Copy, Debug, PartialEq, Eq, Structural)]
pub enum MouseButton {
    Left,
    Right,
    Middle,
}

/// What the pointer did.
#[derive(Clone, Copy, Debug, PartialEq, Eq, Structural)]
pub enum MouseEventKind {
    Down(MouseButton),
    Up(MouseButton),
    Drag(MouseButton),
    Moved,
    ScrollDown,
    ScrollUp,
}

/// The keys that the tools tell apart.
#[derive(Clone, Copy, Debug, PartialEq, Eq, Structural)]
pub enum KeyCode {
    Backspace,
    Enter,
    Esc,
    Char(char),
    Other,
}

/// A key press, and whether the control key was held with it.
#[derive(Clone, Copy, Debug, PartialEq, Eq, Structural)]
pub struct KeyEvent {
    pub code: KeyCode,
    pub control: bool,
}

/// The tools that can be selected.
#[derive(Clone, Copy, Debug, PartialEq, Eq, Structural)]
pub enum ToolSelect {
    Idle,
    Freehand,
    Erase,
    Rectangle,
    Text,
    Line,
    ThickLine,
}

/// What the handler of an event asks of whoever owns it.
#[derive(Clone, Copy, Debug, PartialEq, Eq, Structural)]
pub enum Command {
    /// Nothing.
    NoOp,
    /// The live tool has taken its last event: freeze it and start the next.
    FinishStroke,
    /// Let the next pointer event choose anew whom it belongs to.
    ResetFocus,
    /// Select a tool.
    SetTool(ToolSelect),
    /// Switch between the Unicode and the ASCII alphabet.
    ToggleMode,
    /// Scroll the view to this column.
    SetViewOffsetX(usize),
}

impl ToolSelect {
    /// The characters of the name that the tool is shown under.
    pub open spec fn label(self) -> Seq<char> {
        match self {
            ToolSelect::Idle => "None"@,
            ToolSelect::Freehand => "Freehand"@,
            ToolSelect::Erase => "Erase"@,
            ToolSelect::Rectangle => "Rectangle"@,
            ToolSelect::Text => "Text"@,
            ToolSelect::Line => "Line"@,
            ToolSelect::ThickLine => "Thick Line"@,
        }
    }

    /// The name that the tool is shown under.
    pub fn name(&self) -> (name: &'static str)
        ensures
            name@ == self.label(),
    {
        match self {
            ToolSelect::Idle => "None",
            ToolSelect::Freehand => "Freehand",
            ToolSelect::Erase => "Erase",
            ToolSelect::Rectangle => "Rectangle",
            ToolSelect::Text => "Text",
            ToolSelect::Line => "Line",
            ToolSelect::ThickLine => "Thick Line",
        }
    }
}

/// Whether `v` is a world coordinate: not negative, and below the largest
/// signed machine word, so that a line can be stepped one past it.
pub open spec fn is_world(v: int) -> bool {
    0 <= v < isize::MAX
}

/// The world cell that the pointer is at, if it is at one.
pub fn to_world(x: isize, y: isize) -> (cell: Option<(usize, usize)>)
    ensures
        cell is Some <==> is_world(x as int) && is_world(y as int),
        cell matches Some(p) ==> p.0 == x && p.1 == y,
{
    if 0 <= x && x < isize::MAX && 0 <= y && y < isize::MAX {
        Some((x as usize, y as usize))
    } else {
        None
    }
}

/// What a drawing tool asks for after a pointer event: to be finished when
/// the button is released, nothing otherwise.
pub open spec fn finish_on_release(kind: MouseEventKind) -> Command {
    match kind {
        MouseEventKind::Up(_) => Command::FinishStroke,
        _ => Command::NoOp,
    }
}

/// The state of a tool that is drawn by pressing at one cell and dragging to
/// another: whether the first press was made, the two ends, and whether a
/// drag or a second press has moved the end.
pub struct Segment {
    pub started: bool,
    pub start: (int, int),
    pub end: (int, int),
    pub complete: bool,
}

impl Segment {
    /// The state before the first press.
    pub open spec fn fresh() -> Segment {
        Segment { started: false, start: (0, 0), end: (0, 0), complete: false }
    }

    /// The state after a pointer event at `(x, y)`. The first press puts
    /// both ends at the cell. A later press, and every drag, moves the end
    /// there and completes the tool. An event that is at no world cell, and
    /// every other kind of event, changes nothing.
    pub open spec fn after(self, x: int, y: int, kind: MouseEventKind) -> Segment {
        if is_world(x) && is_world(y) {
            match kind {
                MouseEventKind::Down(_) => if !self.started {
                    Segment { started: true, start: (x, y), end: (x, y), complete: self.complete }
                } else {
                    Segment { started: true, start: self.start, end: (x, y), complete: true }
                },
                MouseEventKind::Drag(_) => Segment {
                    started: self.started,
                    start: self.start,
                    end: (x, y),
                    complete: true,
                },
                _ => self,
            }
        } else {
            self
        }
    }

    /// Whether the tool holds a stroke that is worth keeping: it was
    /// started, and a drag or a second press moved its end.
    pub open spec fn is_complete(self) -> bool {
        self.started && self.complete
    }

    /// The leftmost column of the two ends.
    pub open spec fn min_x(self) -> int {
        if self.start.0 <= self.end.0 { self.start.0 } else { self.end.0 }
    }

    /// The rightmost column of the two ends.
    pub open spec fn max_x(self) -> int {
        if self.start.0 <= self.end.0 { self.end.0 } else { self.start.0 }
    }

    /// The upper row of the two ends.
    pub open spec fn min_y(self) -> int {
        if self.start.1 <= self.end.1 { self.start.1 } else { self.end.1 }
    }

    /// The lower row of the two ends.
    pub open spec fn max_y(self) -> int {
        if self.start.1 <= self.end.1 { self.end.1 } else { self.start.1 }
    }

    /// The smallest rectangle around both ends, as `(min_x, max_x, min_y,
    /// max_y)`: none before the first press.
    pub open spec fn bounding_box(self) -> Option<(int, int, int, int)> {
        if self.started {
            Some((self.min_x(), self.max_x(), self.min_y(), self.max_y()))
        } else {
            None
        }
    }
}

/// The two ends of a shape that is drawn by pressing at one cell and
/// dragging to another, and how far the drawing has come.
pub struct Ends {
    started: bool,
    start: (usize, usize),
    end: (usize, usize),
    complete: bool,
}

impl View for Ends {
    type V = Segment;

    closed spec fn view(&self) -> Segment {
        Segment {
            started: self.started,
            start: (self.start.0 as int, self.start.1 as int),
            end: (self.end.0 as int, self.end.1 as int),
            complete: self.complete,
        }
    }
}

impl Ends {
    /// Both ends are world cells at all times.
    #[verifier::type_invariant]
    spec fn ends_in_world(self) -> bool {
        &&& is_world(self.start.0 as int)
        &&& is_world(self.start.1 as int)
        &&& is_world(self.end.0 as int)
        &&& is_world(self.end.1 as int)
    }

    /// The ends before the first press.
    pub fn new() -> (ends: Ends)
        ensures
            ends@ == Segment::fresh(),
    {
        Ends { started: false, start: (0, 0), end: (0, 0), complete: false }
    }

    /// Takes a pointer event at `(x, y)`.
    pub fn mouse_event(&mut self, x: isize, y: isize, kind: MouseEventKind) -> (command: Command)
        ensures
            final(self)@ == old(self)@.after(x as int, y as int, kind),
            command == finish_on_release(kind),
    {
        proof {
            use_type_invariant(&*self);
        }
        match kind {
            MouseEventKind::Down(_) => {
                if let Some(p) = to_world(x, y) {
                    if !self.started {
                        self.start = p;
                        self.end = p;
                        self.started = true;
                    } else {
                        self.end = p;
                        self.complete = true;
                    }
                }
                Command::NoOp
            },
            MouseEventKind::Drag(_) => {
                if let Some(p) = to_world(x, y) {
                    self.end = p;
                    self.complete = true;
                }
                Command::NoOp
            },
            MouseEventKind::Up(_) => Command::FinishStroke,
            _ => Command::NoOp,
        }
    }

    /// Whether the first press was made.
    pub fn started(&self) -> (started: bool)
        ensures
            started == self@.started,
    {
        self.started
    }

    /// The end at which the first press was made: a world cell.
    pub fn start(&self) -> (cell: (usize, usize))
        ensures
            cell.0 == self@.start.0,
            cell.1 == self@.start.1,
            is_world(cell.0 as int),
            is_world(cell.1 as int),
    {
        proof {
            use_type_invariant(self);
        }
        self.start
    }

    /// The end that follows the pointer: a world cell.
    pub fn end(&self) -> (cell: (usize, usize))
        ensures
            cell.0 == self@.end.0,
            cell.1 == self@.end.1,
            is_world(cell.0 as int),
            is_world(cell.1 as int),
    {
        proof {
            use_type_invariant(self);
        }
        self.end
    }

    /// The columns and rows of the rectangle around both ends, as `(min_x,
    /// max_x, min_y, max_y)`.
    pub fn sides(&self) -> (sides: (usize, usize, usize, usize))
        ensures
            sides.0 == self@.min_x(),
            sides.1 == self@.max_x(),
            sides.2 == self@.min_y(),
            sides.3 == self@.max_y(),
    {
        let (start_x, start_y) = self.start;
        let (end_x, end_y) = self.end;
        (
            if start_x <= end_x { start_x } else { end_x },
            if start_x <= end_x { end_x } else { start_x },
            if start_y <= end_y { start_y } else { end_y },
            if start_y <= end_y { end_y } else { start_y },
        )
    }

    /// The smallest rectangle around both ends: none before the first
    /// press.
    pub fn bounding_box(&self) -> (found: Option<(usize, usize, usize, usize)>)
        ensures
            same_box(found, self@.bounding_box()),
    {
        if self.started {
            Some(self.sides())
        } else {
            None
        }
    }

    /// Whether the shape is worth keeping.
    pub fn complete(&self) -> (done: bool)
        ensures
            done == self@.is_complete(),
    {
        self.started && self.complete
    }
}

} // verus!
