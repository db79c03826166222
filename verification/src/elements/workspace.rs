//! The workspace: the history of strokes, the live tool on top of it, and
//! the window through which the screen looks at the world.

use vstd::prelude::*;
use crate::buffer::{Buffer, Canvas};
use crate::elements::{covers, MouseEvent};
use crate::marks::{window, within, Window};
use crate::strings::push_char;
use crate::tool::{Stroke, Tool};
use crate::tools::block::{picture, Block};
use crate::tools::text::capped;
use crate::tools::{Command, KeyEvent, MouseButton, MouseEventKind, ToolSelect};

verus! {

/// Whether `tools` is a history: it holds a tool, and every tool below the
/// last is complete, so that only the last can be the live one.
pub open spec fn is_history(tools: Seq<Stroke>) -> bool {
    &&& tools.len() >= 1
    &&& forall|i: int| 0 <= i < tools.len() - 1 ==> (#[trigger] tools[i]).complete()
}

/// `tools` without its last tool where that one is not complete.
pub open spec fn settled(tools: Seq<Stroke>) -> Seq<Stroke> {
    if tools.len() > 0 && !tools.last().complete() {
        tools.drop_last()
    } else {
        tools
    }
}

/// `tools` without its last two tools, or without any where it has fewer,
/// and with an idle tool on top.
pub open spec fn undone(tools: Seq<Stroke>) -> Seq<Stroke> {
    if tools.len() >= 2 {
        tools.take(tools.len() - 2).push(Stroke::Idle)
    } else {
        seq![Stroke::Idle]
    }
}

/// The world coordinate of a screen coordinate `at` in an element that
/// begins at `origin` and looks at the world from `offset` on. It is capped
/// at the largest signed machine word, which is no world coordinate.
pub open spec fn world_coordinate(offset: int, at: int, origin: int) -> int {
    if offset + at - origin > isize::MAX {
        isize::MAX as int
    } else {
        offset + at - origin
    }
}

/// The offset of a view that was grabbed at the offset `offset` and the
/// screen coordinate `from`, once the pointer is at `to`: the view follows
/// the pointer, and stops at the first and at the last coordinate that a
/// machine word counts.
pub open spec fn scrolled(offset: int, from: int, to: int) -> int {
    if offset + from - to < 0 {
        0
    } else {
        capped(offset + from - to)
    }
}

/// The canvas after each of `tools` has rendered to it, first to last, each
/// as far as the clip lets it.
pub open spec fn replayed(cv: Canvas, tools: Seq<Stroke>, clip: Option<Window>, ascii_mode: bool) -> Canvas
    decreases tools.len(),
{
    if tools.len() == 0 {
        cv
    } else {
        replayed(cv, tools.drop_last(), clip, ascii_mode).apply_all(
            within(tools.last().marks(ascii_mode), clip),
            ascii_mode,
        )
    }
}

/// The rows `rows`, one after the other, a line feed after each.
pub open spec fn flattened(rows: Seq<Seq<char>>) -> Seq<char>
    decreases rows.len(),
{
    if rows.len() == 0 {
        Seq::empty()
    } else {
        flattened(rows.drop_last()) + rows.last() + seq!['\n']
    }
}

/// The largest right and the largest lower side of the rectangles that
/// `tools` report, as `(max_x, max_y)`: a tool that reports none is passed
/// over, and `(0, 0)` is what no rectangle at all gives.
pub open spec fn content_max(tools: Seq<Stroke>) -> (int, int)
    decreases tools.len(),
{
    if tools.len() == 0 {
        (0, 0)
    } else {
        let rest = content_max(tools.drop_last());
        match tools.last().bounding_box() {
            Some(b) => (if b.1 > rest.0 { b.1 } else { rest.0 }, if b.3 > rest.1 { b.3 } else { rest.1 }),
            None => rest,
        }
    }
}

/// What a workspace holds: where it lies on the screen and how large it is,
/// from where it looks at the world, where the view was grabbed for
/// scrolling, the selected tool, and the tools of the history with the live
/// one last.
pub struct Desk {
    pub x: int,
    pub y: int,
    pub size_x: int,
    pub size_y: int,
    pub view_offset: (int, int),
    pub grab_offset: (int, int),
    pub grab_start: (int, int),
    pub selection: ToolSelect,
    pub tools: Seq<Stroke>,
}

impl Desk {
    /// The workspace of a screen of `x` columns and `y` rows, before the
    /// first event: the idle tool alone. The workspace begins in the third
    /// row and leaves the last row and the last column free.
    pub open spec fn fresh(x: int, y: int) -> Desk {
        Desk {
            x: 0,
            y: 2,
            size_x: if x >= 1 { x - 1 } else { 0 },
            size_y: if y >= 3 { y - 3 } else { 0 },
            view_offset: (0, 0),
            grab_offset: (0, 0),
            grab_start: (0, 0),
            selection: ToolSelect::Idle,
            tools: seq![Stroke::Idle],
        }
    }

    /// The workspace after the screen was resized to `x` columns and `y`
    /// rows.
    pub open spec fn resized(self, x: int, y: int) -> Desk {
        Desk {
            x: 0,
            y: 2,
            size_x: if x >= 1 { x - 1 } else { 0 },
            size_y: if y >= 3 { y - 3 } else { 0 },
            ..self
        }
    }

    /// Whether the workspace covers the cell `(x, y)` of the screen.
    pub open spec fn covers(self, x: int, y: int) -> bool {
        covers(self.x, self.y, self.size_x, self.size_y, x, y)
    }

    /// Whether a pointer event goes to the live tool: a press or a drag of
    /// the left button inside the workspace, and every release of it.
    pub open spec fn hands_on(self, event: MouseEvent) -> bool {
        match event.kind {
            MouseEventKind::Down(MouseButton::Left) => self.covers(event.column as int, event.row as int),
            MouseEventKind::Drag(MouseButton::Left) => self.covers(event.column as int, event.row as int),
            MouseEventKind::Up(MouseButton::Left) => true,
            _ => false,
        }
    }

    /// The workspace after a pointer event. The left button draws: the live
    /// tool gets the event at the world cell under the pointer. The right
    /// button scrolls: a press grabs the view, a drag moves it with the
    /// pointer.
    pub open spec fn after_pointer(self, event: MouseEvent) -> Desk {
        if self.hands_on(event) {
            Desk {
                tools: self.tools.update(
                    self.tools.len() - 1,
                    self.tools.last().after_pointer(
                        world_coordinate(self.view_offset.0, event.column as int, self.x),
                        world_coordinate(self.view_offset.1, event.row as int, self.y),
                        event.kind,
                    ),
                ),
                ..self
            }
        } else {
            match event.kind {
                MouseEventKind::Down(MouseButton::Right) => Desk {
                    grab_start: (event.column as int, event.row as int),
                    grab_offset: self.view_offset,
                    ..self
                },
                MouseEventKind::Drag(MouseButton::Right) => Desk {
                    view_offset: (
                        scrolled(self.grab_offset.0, self.grab_start.0, event.column as int),
                        scrolled(self.grab_offset.1, self.grab_start.1, event.row as int),
                    ),
                    ..self
                },
                _ => self,
            }
        }
    }

    /// What the workspace asks for after a pointer event: what the live tool
    /// asks for, where the event went to it.
    pub open spec fn pointer_command(self, event: MouseEvent) -> Command {
        if self.hands_on(event) {
            self.tools.last().pointer_command(event.kind)
        } else {
            Command::NoOp
        }
    }

    /// The workspace after a key, which goes to the live tool.
    pub open spec fn after_key(self, event: KeyEvent) -> Desk {
        Desk {
            tools: self.tools.update(self.tools.len() - 1, self.tools.last().after_key(event.code)),
            ..self
        }
    }

    /// The window of the world that the workspace shows.
    pub open spec fn view_window(self) -> Window {
        Window {
            min_x: self.view_offset.0,
            max_x: capped(self.view_offset.0 + self.size_x),
            min_y: self.view_offset.1,
            max_y: capped(self.view_offset.1 + self.size_y),
        }
    }

    /// The canvas of a frame: empty, with its top-left cell where the view
    /// begins, and then every tool of the history rendered to it inside the
    /// window, oldest first.
    pub open spec fn frame(self, ascii_mode: bool) -> Canvas {
        replayed(
            Canvas::blank(self.view_offset.0, self.view_offset.1),
            self.tools,
            Some(self.view_window()),
            ascii_mode,
        )
    }

    /// The lines that the workspace shows: as many as it is high, each as
    /// long as it is wide, the rows of the frame and spaces below them.
    pub open spec fn screen(self, ascii_mode: bool) -> Seq<Seq<char>> {
        Seq::new(
            self.size_y as nat,
            |r: int|
                if r < self.frame(ascii_mode).rows.len() {
                    self.frame(ascii_mode).lines(self.size_x as nat)[r]
                } else {
                    Seq::new(self.size_x as nat, |c: int| ' ')
                },
        )
    }

    /// The whole picture as text: every tool of the history rendered to an
    /// empty canvas at the world origin, oldest first, and the rows of that
    /// canvas one after the other.
    pub open spec fn text(self, ascii_mode: bool) -> Seq<char> {
        flattened(replayed(Canvas::blank(0, 0), self.tools, None, ascii_mode).rows)
    }
}

/// The part of the screen that is drawn on, with the history of what was
/// drawn.
pub struct Workspace {
    x: u16,
    y: u16,
    size_x: u16,
    size_y: u16,
    view_offset_x: usize,
    view_offset_y: usize,
    mouse_right_view_offset: (usize, usize),
    mouse_right_start: (u16, u16),
    current_tool_selection: ToolSelect,
    previous_tools: Vec<Tool>,
}

/// The tools of `tools` as the contracts see them.
pub open spec fn strokes(tools: Seq<Tool>) -> Seq<Stroke> {
    Seq::new(tools.len(), |i: int| tools[i]@)
}

impl View for Workspace {
    type V = Desk;

    closed spec fn view(&self) -> Desk {
        Desk {
            x: self.x as int,
            y: self.y as int,
            size_x: self.size_x as int,
            size_y: self.size_y as int,
            view_offset: (self.view_offset_x as int, self.view_offset_y as int),
            grab_offset: (self.mouse_right_view_offset.0 as int, self.mouse_right_view_offset.1 as int),
            grab_start: (self.mouse_right_start.0 as int, self.mouse_right_start.1 as int),
            selection: self.current_tool_selection,
            tools: strokes(self.previous_tools@),
        }
    }
}

impl Workspace {
    /// The tools are a history at all times.
    #[verifier::type_invariant]
    spec fn holds_history(self) -> bool {
        is_history(strokes(self.previous_tools@))
    }

    /// Takes the tools out to work on them, and leaves an idle tool in their
    /// place.
    fn take_tools(&mut self) -> (tools: Vec<Tool>)
        ensures
            strokes(tools@) == old(self)@.tools,
            is_history(strokes(tools@)),
            final(self)@ == (Desk { tools: seq![Stroke::Idle], ..old(self)@ }),
    {
        proof {
            use_type_invariant(&*self);
        }
        let mut tools: Vec<Tool> = Vec::new();
        tools.push(ToolSelect::Idle.to_tool());
        assert(strokes(tools@) =~= seq![Stroke::Idle]);
        std::mem::swap(&mut self.previous_tools, &mut tools);
        tools
    }

    /// Puts `tools` in the place of the tools.
    fn put_tools(&mut self, tools: Vec<Tool>)
        requires
            is_history(strokes(tools@)),
        ensures
            final(self)@ == (Desk { tools: strokes(tools@), ..old(self)@ }),
    {
        let mut tools = tools;
        std::mem::swap(&mut self.previous_tools, &mut tools);
    }

    pub fn new(x: u16, y: u16) -> (workspace: Workspace)
        ensures
            workspace@ == Desk::fresh(x as int, y as int),
            is_history(workspace@.tools),
    {
        let mut tools: Vec<Tool> = Vec::new();
        tools.push(ToolSelect::Idle.to_tool());
        assert(strokes(tools@) =~= seq![Stroke::Idle]);
        let mut new = Workspace {
            x: 0,
            y: 0,
            size_x: 0,
            size_y: 0,
            view_offset_x: 0,
            view_offset_y: 0,
            mouse_right_view_offset: (0, 0),
            mouse_right_start: (0, 0),
            current_tool_selection: ToolSelect::Idle,
            previous_tools: tools,
        };
        new.resize_event(x, y);
        new
    }

    pub fn resize_event(&mut self, x: u16, y: u16)
        ensures
            final(self)@ == old(self)@.resized(x as int, y as int),
            is_history(final(self)@.tools),
    {
        proof {
            use_type_invariant(&*self);
        }
        self.x = 0;
        self.y = 2;
        self.size_x = x.saturating_sub(1);
        self.size_y = y.saturating_sub(3);
    }

    /// Where the workspace begins on the screen, as `(column, row)`.
    pub fn position(&self) -> (at: (u16, u16))
        ensures
            at.0 == self@.x,
            at.1 == self@.y,
    {
        (self.x, self.y)
    }

    pub fn coord_within(&self, x: u16, y: u16) -> (inside: bool)
        ensures
            inside == self@.covers(x as int, y as int),
    {
        (self.x <= x && (x as u32) < self.x as u32 + self.size_x as u32) && (self.y <= y && (y as u32)
            < self.y as u32 + self.size_y as u32)
    }

    pub fn set_view_offset_x(&mut self, offset: usize)
        ensures
            final(self)@ == (Desk { view_offset: (offset as int, old(self)@.view_offset.1), ..old(self)@ }),
            is_history(final(self)@.tools),
    {
        proof {
            use_type_invariant(&*self);
        }
        self.view_offset_x = offset;
    }

    pub fn set_view_offset_y(&mut self, offset: usize)
        ensures
            final(self)@ == (Desk { view_offset: (old(self)@.view_offset.0, offset as int), ..old(self)@ }),
            is_history(final(self)@.tools),
    {
        proof {
            use_type_invariant(&*self);
        }
        self.view_offset_y = offset;
    }

    /// Selects the tool that the next stroke is drawn with.
    pub fn set_tool(&mut self, tool: ToolSelect)
        ensures
            final(self)@ == (Desk { selection: tool, ..old(self)@ }),
            is_history(final(self)@.tools),
    {
        proof {
            use_type_invariant(&*self);
        }
        self.current_tool_selection = tool;
    }

    /// Starts a stroke with the selected tool. A live tool that is not
    /// complete makes way for it; one that is complete stays as the last
    /// stroke of the history.
    pub fn new_tool(&mut self)
        ensures
            final(self)@ == (Desk {
                tools: settled(old(self)@.tools).push(Stroke::fresh(old(self)@.selection)),
                ..old(self)@
            }),
            is_history(final(self)@.tools),
    {
        let mut tools = self.take_tools();
        let ghost before = strokes(tools@);
        let n = tools.len();
        if !tools[n - 1].complete() {
            tools.pop();
        }
        tools.push(self.current_tool_selection.to_tool());
        proof {
            assert(strokes(tools@) =~= settled(before).push(Stroke::fresh(old(self)@.selection)));
            assert forall|i: int| 0 <= i < strokes(tools@).len() - 1 implies (#[trigger] strokes(
                tools@,
            )[i]).complete() by {
                assert(strokes(tools@)[i] == before[i]);
            }
        }
        self.put_tools(tools);
    }

    /// Puts the picture that `text` holds on top of the history. A live
    /// tool that is not complete makes way for it.
    pub fn add_file_block(&mut self, text: &str)
        ensures
            final(self)@ == (Desk {
                tools: settled(old(self)@.tools).push(
                    Stroke::Block(picture(text@, text@.len() as int)),
                ),
                ..old(self)@
            }),
            is_history(final(self)@.tools),
    {
        let mut tools = self.take_tools();
        let ghost before = strokes(tools@);
        let n = tools.len();
        if !tools[n - 1].complete() {
            tools.pop();
        }
        tools.push(Tool::Block(Block::new(text)));
        proof {
            assert(strokes(tools@) =~= settled(before).push(
                Stroke::Block(picture(text@, text@.len() as int)),
            ));
            assert forall|i: int| 0 <= i < strokes(tools@).len() - 1 implies (#[trigger] strokes(
                tools@,
            )[i]).complete() by {
                assert(strokes(tools@)[i] == before[i]);
            }
        }
        self.put_tools(tools);
    }

    /// Takes back the last stroke: the live tool and the stroke below it
    /// leave the history, as far as they are there, and an idle tool becomes
    /// the live one.
    pub fn undo(&mut self)
        ensures
            final(self)@ == (Desk { tools: undone(old(self)@.tools), ..old(self)@ }),
            is_history(final(self)@.tools),
    {
        let mut tools = self.take_tools();
        let ghost before = strokes(tools@);
        tools.pop();
        if tools.len() > 0 {
            tools.pop();
        }
        tools.push(ToolSelect::Idle.to_tool());
        proof {
            assert(strokes(tools@) =~= undone(before));
            assert forall|i: int| 0 <= i < strokes(tools@).len() - 1 implies (#[trigger] strokes(
                tools@,
            )[i]).complete() by {
                assert(strokes(tools@)[i] == before[i]);
            }
        }
        self.put_tools(tools);
    }

    /// The world coordinate under the screen coordinate `at`.
    fn to_world_coordinate(offset: usize, at: u16, origin: u16) -> (v: isize)
        ensures
            v == world_coordinate(offset as int, at as int, origin as int),
    {
        let wide: i128 = offset as i128 + at as i128 - origin as i128;
        if wide > isize::MAX as i128 {
            isize::MAX
        } else {
            wide as isize
        }
    }

    /// The offset of the view once the pointer that grabbed it at `from` is
    /// at `to`.
    fn scroll(offset: usize, from: u16, to: u16) -> (v: usize)
        ensures
            v == scrolled(offset as int, from as int, to as int),
    {
        if from >= to {
            offset.saturating_add((from - to) as usize)
        } else {
            offset.saturating_sub((to - from) as usize)
        }
    }

    /// Hands a pointer event at the world cell `(x, y)` to the live tool.
    fn hand_on(&mut self, x: isize, y: isize, kind: MouseEventKind) -> (command: Command)
        ensures
            final(self)@ == (Desk {
                tools: old(self)@.tools.update(
                    old(self)@.tools.len() - 1,
                    old(self)@.tools.last().after_pointer(x as int, y as int, kind),
                ),
                ..old(self)@
            }),
            command == old(self)@.tools.last().pointer_command(kind),
            is_history(final(self)@.tools),
    {
        let mut tools = self.take_tools();
        let ghost before = strokes(tools@);
        let n = tools.len();
        let command = tools[n - 1].mouse_event(x, y, kind);
        proof {
            assert(strokes(tools@) =~= before.update(n - 1, before.last().after_pointer(x as int, y as int, kind)));
            assert forall|i: int| 0 <= i < strokes(tools@).len() - 1 implies (#[trigger] strokes(
                tools@,
            )[i]).complete() by {
                assert(strokes(tools@)[i] == before[i]);
            }
        }
        self.put_tools(tools);
        command
    }

    pub fn mouse_event(&mut self, event: MouseEvent) -> (command: Command)
        ensures
            final(self)@ == old(self)@.after_pointer(event),
            command == old(self)@.pointer_command(event),
            is_history(final(self)@.tools),
    {
        proof {
            use_type_invariant(&*self);
        }
        let x = event.column;
        let y = event.row;
        match event.kind {
            MouseEventKind::Down(button) => match button {
                MouseButton::Left => {
                    if !self.coord_within(x, y) {
                        return Command::NoOp;
                    }
                    let global_x = Self::to_world_coordinate(self.view_offset_x, x, self.x);
                    let global_y = Self::to_world_coordinate(self.view_offset_y, y, self.y);
                    self.hand_on(global_x, global_y, event.kind)
                },
                MouseButton::Right => {
                    self.mouse_right_start = (x, y);
                    self.mouse_right_view_offset = (self.view_offset_x, self.view_offset_y);
                    Command::NoOp
                },
                _ => Command::NoOp,
            },
            MouseEventKind::Drag(button) => match button {
                MouseButton::Left => {
                    if !self.coord_within(x, y) {
                        return Command::NoOp;
                    }
                    let global_x = Self::to_world_coordinate(self.view_offset_x, x, self.x);
                    let global_y = Self::to_world_coordinate(self.view_offset_y, y, self.y);
                    self.hand_on(global_x, global_y, event.kind)
                },
                MouseButton::Right => {
                    let (start_x, start_y) = self.mouse_right_start;
                    let (start_offset_x, start_offset_y) = self.mouse_right_view_offset;
                    self.view_offset_x = Self::scroll(start_offset_x, start_x, x);
                    self.view_offset_y = Self::scroll(start_offset_y, start_y, y);
                    Command::NoOp
                },
                _ => Command::NoOp,
            },
            MouseEventKind::Up(button) => match button {
                MouseButton::Left => {
                    let global_x = Self::to_world_coordinate(self.view_offset_x, x, self.x);
                    let global_y = Self::to_world_coordinate(self.view_offset_y, y, self.y);
                    self.hand_on(global_x, global_y, event.kind)
                },
                _ => Command::NoOp,
            },
            _ => Command::NoOp,
        }
    }

    pub fn key_event(&mut self, event: KeyEvent) -> (command: Command)
        ensures
            final(self)@ == old(self)@.after_key(event),
            command == old(self)@.tools.last().key_command(event.code),
            is_history(final(self)@.tools),
    {
        let mut tools = self.take_tools();
        let ghost before = strokes(tools@);
        let n = tools.len();
        let command = tools[n - 1].key_event(event);
        proof {
            assert(strokes(tools@) =~= before.update(n - 1, before.last().after_key(event.code)));
            assert forall|i: int| 0 <= i < strokes(tools@).len() - 1 implies (#[trigger] strokes(
                tools@,
            )[i]).complete() by {
                assert(strokes(tools@)[i] == before[i]);
            }
        }
        self.put_tools(tools);
        command
    }

    /// Where the view begins, where it ends, and how far the content
    /// reaches, each as `(x, y)`.
    pub fn get_parameters(&self) -> (parameters: ((usize, usize), (usize, usize), (usize, usize)))
        ensures
            parameters.0.0 == self@.view_window().min_x,
            parameters.0.1 == self@.view_window().min_y,
            parameters.1.0 == self@.view_window().max_x,
            parameters.1.1 == self@.view_window().max_y,
            parameters.2.0 == content_max(self@.tools).0,
            parameters.2.1 == content_max(self@.tools).1,
    {
        let ghost tools = self@.tools;
        let mut max_x: usize = 0;
        let mut max_y: usize = 0;
        let mut i: usize = 0;
        while i < self.previous_tools.len()
            invariant
                i <= self.previous_tools@.len(),
                tools == self@.tools,
                max_x == content_max(tools.take(i as int)).0,
                max_y == content_max(tools.take(i as int)).1,
            decreases self.previous_tools@.len() - i,
        {
            proof {
                assert(tools.take(i + 1).drop_last() =~= tools.take(i as int));
                assert(tools.take(i + 1).last() == self.previous_tools@[i as int]@);
            }
            match self.previous_tools[i].bounding_box() {
                Some((_, new_max_x, _, new_max_y)) => {
                    if new_max_x > max_x {
                        max_x = new_max_x;
                    }
                    if new_max_y > max_y {
                        max_y = new_max_y;
                    }
                },
                None => {},
            }
            i = i + 1;
        }
        assert(tools.take(i as int) =~= tools);
        (
            (self.view_offset_x, self.view_offset_y),
            (
                self.view_offset_x.saturating_add(self.size_x as usize),
                self.view_offset_y.saturating_add(self.size_y as usize),
            ),
            (max_x, max_y),
        )
    }

    /// Renders a frame to `buffer` and gives the lines that the workspace
    /// shows.
    pub fn render(&self, buffer: &mut Buffer, ascii_mode: bool) -> (lines: Vec<String>)
        ensures
            final(buffer)@ == self@.frame(ascii_mode),
            lines.deep_view() == self@.screen(ascii_mode),
            lines@.len() == self@.size_y,
            lines@.len() <= u16::MAX,
    {
        let buffer_size_x = self.size_x as usize;
        let buffer_size_y = self.size_y as usize;
        let min_x = self.view_offset_x;
        let min_y = self.view_offset_y;
        let max_x = self.view_offset_x.saturating_add(buffer_size_x);
        let max_y = self.view_offset_y.saturating_add(buffer_size_y);
        let ghost tools = self@.tools;
        let ghost w = self@.view_window();
        let ghost blank = Canvas::blank(min_x as int, min_y as int);
        buffer.new_frame_bounded(min_x, min_y);
        let mut i: usize = 0;
        while i < self.previous_tools.len()
            invariant
                i <= self.previous_tools@.len(),
                tools == self@.tools,
                w == self@.view_window(),
                w == window(min_x, max_x, min_y, max_y),
                blank == Canvas::blank(min_x as int, min_y as int),
                buffer@ == replayed(blank, tools.take(i as int), Some(w), ascii_mode),
            decreases self.previous_tools@.len() - i,
        {
            proof {
                assert(tools.take(i + 1).drop_last() =~= tools.take(i as int));
                assert(tools.take(i + 1).last() == self.previous_tools@[i as int]@);
            }
            self.previous_tools[i].render_bounded(min_x, max_x, min_y, max_y, buffer, ascii_mode);
            i = i + 1;
        }
        assert(tools.take(i as int) =~= tools);
        let rows = buffer.output(buffer_size_x);
        let ghost screen = self@.screen(ascii_mode);
        let mut lines: Vec<String> = Vec::new();
        let mut y: usize = 0;
        while y < buffer_size_y
            invariant
                y <= buffer_size_y,
                buffer_size_y == self@.size_y,
                buffer_size_x == self@.size_x,
                screen == self@.screen(ascii_mode),
                buffer@ == self@.frame(ascii_mode),
                rows.deep_view() == buffer@.lines(buffer_size_x as nat),
                lines@.len() == y,
                forall|k: int| 0 <= k < y ==> lines@[k]@ == screen[k],
            decreases buffer_size_y - y,
        {
            let mut line = String::new();
            assert(rows.deep_view().len() == rows@.len());
            assert(buffer@.lines(buffer_size_x as nat).len() == buffer@.rows.len());
            if y < rows.len() {
                let row = &rows[y];
                assert(row@ == rows.deep_view()[y as int]);
                line = row.clone();
                assert(line@ == screen[y as int]);
            } else {
                let mut x: usize = 0;
                while x < buffer_size_x
                    invariant
                        x <= buffer_size_x,
                        line@.len() == x,
                        forall|k: int| 0 <= k < x ==> line@[k] == ' ',
                    decreases buffer_size_x - x,
                {
                    push_char(&mut line, ' ');
                    x = x + 1;
                }
                assert(line@ =~= Seq::new(buffer_size_x as nat, |c: int| ' '));
            }
            assert(line@ == screen[y as int]);
            lines.push(line);
            y = y + 1;
        }
        assert(lines.deep_view() =~= screen);
        lines
    }

    /// The whole picture as text, a line feed after each row.
    pub fn render_to_file(&self, ascii_mode: bool) -> (text: String)
        ensures
            text@ == self@.text(ascii_mode),
    {
        let ghost tools = self@.tools;
        let ghost blank = Canvas::blank(0, 0);
        let mut buffer = Buffer::new();
        let mut i: usize = 0;
        while i < self.previous_tools.len()
            invariant
                i <= self.previous_tools@.len(),
                tools == self@.tools,
                blank == Canvas::blank(0, 0),
                buffer@ == replayed(blank, tools.take(i as int), None, ascii_mode),
            decreases self.previous_tools@.len() - i,
        {
            proof {
                assert(tools.take(i + 1).drop_last() =~= tools.take(i as int));
                assert(tools.take(i + 1).last() == self.previous_tools@[i as int]@);
            }
            self.previous_tools[i].render(&mut buffer, ascii_mode);
            i = i + 1;
        }
        assert(tools.take(i as int) =~= tools);
        let ghost rows = buffer@.rows;
        let grid = buffer.into_inner();
        let mut text = String::new();
        let mut y: usize = 0;
        while y < grid.len()
            invariant
                y <= grid@.len(),
                grid.deep_view() == rows,
                text@ == flattened(rows.take(y as int)),
            decreases grid@.len() - y,
        {
            let ghost above = text@;
            let mut x: usize = 0;
            while x < grid[y].len()
                invariant
                    y < grid@.len(),
                    x <= grid@[y as int]@.len(),
                    text@ == above + grid@[y as int]@.take(x as int),
                decreases grid@[y as int]@.len() - x,
            {
                proof {
                    assert(grid@[y as int]@.take(x + 1) =~= grid@[y as int]@.take(x as int).push(grid@[y as int]@[x as int]));
                    assert((above + grid@[y as int]@.take(x as int)).push(grid@[y as int]@[x as int]) =~= above + grid@[y as int]@.take(x + 1));
                }
                push_char(&mut text, grid[y][x]);
                x = x + 1;
            }
            push_char(&mut text, '\n');
            proof {
                assert(grid@[y as int]@.take(x as int) =~= grid@[y as int]@);
                assert(grid@[y as int]@ =~= rows[y as int]) by {
                    assert(grid.deep_view()[y as int] == rows[y as int]);
                }
                assert(rows.take(y + 1).drop_last() =~= rows.take(y as int));
                assert(text@ =~= flattened(rows.take(y as int)) + rows[y as int] + seq!['\n']);
            }
            y = y + 1;
        }
        assert(rows.take(y as int) =~= rows);
        text
    }
}

/// The text of a picture depends on the history and the alphabet alone: two
/// flattenings with no event between them give the same text.
pub proof fn lemma_flatten_twice(desk: Desk, ascii_mode: bool, first: Seq<char>, second: Seq<char>)
    requires
        first == desk.text(ascii_mode),
        second == desk.text(ascii_mode),
    ensures
        first == second,
{
}

} // verus!
