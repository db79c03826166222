//! The state of a session: the elements of the screen, which of them the
//! pointer belongs to, and what an event does to them.

use vstd::prelude::*;
use crate::buffer::Buffer;
use crate::elements::horizontal_scroll::{Bar, HorizontalScroll};
use crate::elements::tool_menu::{Menu, ToolMenu};
use crate::elements::workspace::{content_max, settled, undone, Desk, Workspace};
use crate::elements::MouseEvent;
use crate::tool::Stroke;
use crate::tools::{Command, KeyCode, KeyEvent, MouseEventKind};

verus! {

/// What the terminal reports.
#[derive(Clone, Copy, Debug, PartialEq, Eq, Structural)]
pub enum Event {
    Key(KeyEvent),
    Mouse(MouseEvent),
    Resize(u16, u16),
}

/// An element of the screen that the pointer can belong to.
#[derive(Clone, Copy, Debug, PartialEq, Eq, Structural)]
pub enum Focus {
    ToolMenu,
    Workspace,
    HorizontalScroll,
}

/// What is left to do for whoever handed an event in.
#[derive(Clone, Copy, Debug, PartialEq, Eq, Structural)]
pub enum Action {
    /// Nothing.
    Nothing,
    /// Write the picture to its file.
    Save,
}

/// A piece of text and where on the screen it begins.
pub struct Draw {
    pub column: u32,
    pub row: u32,
    pub text: String,
}

/// What a session holds.
pub struct Session {
    pub should_exit: bool,
    pub should_clear: bool,
    pub ascii_mode: bool,
    pub menu: Menu,
    pub desk: Desk,
    pub bar: Bar,
    pub focus: Option<Focus>,
}

/// The tools after the last stroke was taken back and the selected tool was
/// started anew.
pub open spec fn restarted(desk: Desk) -> Desk {
    Desk { tools: settled(undone(desk.tools)).push(Stroke::fresh(desk.selection)), ..desk }
}

/// The workspace with a fresh tool of its selection on top.
pub open spec fn started(desk: Desk) -> Desk {
    Desk { tools: settled(desk.tools).push(Stroke::fresh(desk.selection)), ..desk }
}

impl Session {
    /// The session of a screen of `x` columns and `y` rows, before the first
    /// event: in the Unicode alphabet, with the pointer belonging to nobody.
    pub open spec fn fresh(x: int, y: int) -> Session {
        Session {
            should_exit: false,
            should_clear: true,
            ascii_mode: false,
            menu: Menu::fresh(x),
            desk: Desk::fresh(x, y),
            bar: Bar::fresh(x, y),
            focus: None,
        }
    }

    /// The element that a press at the cell `(x, y)` of the screen goes to:
    /// the first of menu, workspace and scroll bar that covers the cell.
    pub open spec fn element_at(self, x: int, y: int) -> Option<Focus> {
        if self.menu.covers(x, y) {
            Some(Focus::ToolMenu)
        } else if self.desk.covers(x, y) {
            Some(Focus::Workspace)
        } else if self.bar.covers(x, y) {
            Some(Focus::HorizontalScroll)
        } else {
            None
        }
    }

    /// The element that a pointer event goes to: the one that the pointer
    /// belongs to, or, where it belongs to nobody, the one that a press
    /// hits.
    pub open spec fn receiver(self, event: MouseEvent) -> Option<Focus> {
        match self.focus {
            Some(focus) => Some(focus),
            None => match event.kind {
                MouseEventKind::Down(_) => self.element_at(event.column as int, event.row as int),
                _ => None,
            },
        }
    }

    /// The session after what an element asked for was done. A finished
    /// stroke starts the next one with the selected tool. A selected tool
    /// starts a stroke of its own. Each of the two, and a reset, hands the
    /// pointer back.
    pub open spec fn obeyed(self, command: Command) -> Session {
        match command {
            Command::NoOp => self,
            Command::FinishStroke => Session { focus: None, desk: started(self.desk), ..self },
            Command::ResetFocus => Session { focus: None, ..self },
            Command::SetTool(tool) => Session {
                focus: None,
                desk: started(Desk { selection: tool, ..self.desk }),
                ..self
            },
            Command::ToggleMode => Session { ascii_mode: !self.ascii_mode, ..self },
            Command::SetViewOffsetX(offset) => Session {
                desk: Desk { view_offset: (offset as int, self.desk.view_offset.1), ..self.desk },
                ..self
            },
        }
    }

    /// The session after a pointer event. The event goes to its receiver,
    /// to whom the pointer then belongs, and what the receiver asks for is
    /// done. The release of a button hands the pointer back in any case. An
    /// event without a receiver changes nothing.
    pub open spec fn after_pointer(self, event: MouseEvent) -> Session {
        match self.receiver(event) {
            None => self,
            Some(focus) => {
                let held = Session { focus: Some(focus), ..self };
                let done = match focus {
                    Focus::ToolMenu => (Session { menu: self.menu.after_pointer(event), ..held }).obeyed(
                        self.menu.pointer_command(event),
                    ),
                    Focus::Workspace => (Session { desk: self.desk.after_pointer(event), ..held }).obeyed(
                        self.desk.pointer_command(event),
                    ),
                    Focus::HorizontalScroll => held.obeyed(self.bar.pointer_command(event)),
                };
                match event.kind {
                    MouseEventKind::Up(_) => Session { focus: None, ..done },
                    _ => done,
                }
            },
        }
    }

    /// The session after a key. With the control key held, `c` ends the
    /// session, `z` takes back the last stroke and starts the selected tool
    /// anew, and `s` changes nothing here. Every other key goes to the live
    /// tool, and what the tool asks for is done.
    pub open spec fn after_key(self, event: KeyEvent) -> Session {
        if event.control && event.code == KeyCode::Char('c') {
            Session { should_exit: true, ..self }
        } else if event.control && event.code == KeyCode::Char('z') {
            Session { desk: restarted(self.desk), ..self }
        } else if event.control && event.code == KeyCode::Char('s') {
            self
        } else {
            (Session { desk: self.desk.after_key(event), ..self }).obeyed(
                self.desk.tools.last().key_command(event.code),
            )
        }
    }

    /// The session after an event. A new size goes to every element, and
    /// the screen is to be cleared.
    pub open spec fn after(self, event: Event) -> Session {
        match event {
            Event::Key(k) => self.after_key(k),
            Event::Mouse(m) => self.after_pointer(m),
            Event::Resize(x, y) => Session {
                should_clear: true,
                menu: self.menu.resized(x as int),
                desk: self.desk.resized(x as int, y as int),
                bar: self.bar.resized(x as int, y as int),
                ..self
            },
        }
    }

    /// What an event leaves to do: to save, after `s` with the control key
    /// held.
    pub open spec fn action(event: Event) -> Action {
        match event {
            Event::Key(k) => if k.control && k.code == KeyCode::Char('s') {
                Action::Save
            } else {
                Action::Nothing
            },
            _ => Action::Nothing,
        }
    }

    /// The scroll bar as a frame shows it: with the columns at which the
    /// view begins and ends, and with how far the content reaches to the
    /// right.
    pub open spec fn bar_shown(self) -> Bar {
        Bar {
            view_start: self.desk.view_window().min_x,
            view_end: self.desk.view_window().max_x,
            max_size: content_max(self.desk.tools).0,
            ..self.bar
        }
    }

    /// What the `i`-th piece of a frame shows and where it begins: the two
    /// lines of the menu, then the lines of the workspace, top to bottom, and
    /// last the scroll bar.
    pub open spec fn piece(self, i: int) -> (int, int, Seq<char>) {
        if i == 0 {
            (self.menu.x, self.menu.y, self.menu.first_line())
        } else if i == 1 {
            (self.menu.x, self.menu.y + 1, self.menu.second_line())
        } else if i < 2 + self.desk.size_y {
            (self.desk.x, self.desk.y + (i - 2), self.desk.screen(self.ascii_mode)[i - 2])
        } else {
            (self.bar.x, self.bar.y, self.bar_shown().shown())
        }
    }
}

/// A session of drawing.
pub struct State {
    should_exit: bool,
    should_clear: bool,
    ascii_mode: bool,
    tool_menu: ToolMenu,
    workspace: Workspace,
    horizontal_scroll: HorizontalScroll,
    current_mouse_element: Option<Focus>,
}

impl View for State {
    type V = Session;

    closed spec fn view(&self) -> Session {
        Session {
            should_exit: self.should_exit,
            should_clear: self.should_clear,
            ascii_mode: self.ascii_mode,
            menu: self.tool_menu@,
            desk: self.workspace@,
            bar: self.horizontal_scroll@,
            focus: self.current_mouse_element,
        }
    }
}

impl State {
    /// The state of a session on a screen of `size_x` columns and `size_y`
    /// rows.
    pub fn new(size_x: u16, size_y: u16) -> (state: State)
        ensures
            state@ == Session::fresh(size_x as int, size_y as int),
    {
        State {
            should_exit: false,
            should_clear: true,
            ascii_mode: false,
            tool_menu: ToolMenu::new(size_x, size_y),
            workspace: Workspace::new(size_x, size_y),
            horizontal_scroll: HorizontalScroll::new(size_x, size_y),
            current_mouse_element: None,
        }
    }

    pub fn should_exit(&self) -> (exit: bool)
        ensures
            exit == self@.should_exit,
    {
        self.should_exit
    }

    pub fn should_clear(&self) -> (clear: bool)
        ensures
            clear == self@.should_clear,
    {
        self.should_clear
    }

    pub fn set_should_clear(&mut self, clear: bool)
        ensures
            final(self)@ == (Session { should_clear: clear, ..old(self)@ }),
    {
        self.should_clear = clear;
    }

    /// Whether the session draws in the ASCII alphabet.
    pub fn ascii_mode(&self) -> (ascii_mode: bool)
        ensures
            ascii_mode == self@.ascii_mode,
    {
        self.ascii_mode
    }

    pub fn change_mode(&mut self)
        ensures
            final(self)@ == (Session { ascii_mode: !old(self)@.ascii_mode, ..old(self)@ }),
    {
        self.ascii_mode = !self.ascii_mode;
    }

    pub fn reset_current_mouse_element(&mut self)
        ensures
            final(self)@ == (Session { focus: None, ..old(self)@ }),
    {
        self.current_mouse_element = None;
    }

    pub fn set_workspace_tool(&mut self, tool: crate::tools::ToolSelect)
        ensures
            final(self)@ == (Session { desk: started(Desk { selection: tool, ..old(self)@.desk }), ..old(self)@ }),
    {
        self.workspace.set_tool(tool);
        self.workspace.new_tool();
    }

    pub fn set_workspace_view_offset_x(&mut self, offset: usize)
        ensures
            final(self)@ == (Session {
                desk: Desk { view_offset: (offset as int, old(self)@.desk.view_offset.1), ..old(self)@.desk },
                ..old(self)@
            }),
    {
        self.workspace.set_view_offset_x(offset);
    }

    /// Puts the picture that `text` holds on top of the history.
    pub fn load(&mut self, text: &str)
        ensures
            final(self)@ == (Session {
                desk: Desk {
                    tools: settled(old(self)@.desk.tools).push(
                        Stroke::Block(crate::tools::block::picture(text@, text@.len() as int)),
                    ),
                    ..old(self)@.desk
                },
                ..old(self)@
            }),
    {
        self.workspace.add_file_block(text);
    }

    /// The whole picture as text, a line feed after each row.
    pub fn flatten_to_text(&self) -> (text: String)
        ensures
            text@ == self@.desk.text(self@.ascii_mode),
    {
        self.workspace.render_to_file(self.ascii_mode)
    }

    /// Does what an element asked for.
    fn obey(&mut self, command: Command)
        ensures
            final(self)@ == old(self)@.obeyed(command),
    {
        match command {
            Command::NoOp => {},
            Command::FinishStroke => {
                self.current_mouse_element = None;
                self.workspace.new_tool();
            },
            Command::ResetFocus => {
                self.current_mouse_element = None;
            },
            Command::SetTool(tool) => {
                self.current_mouse_element = None;
                self.workspace.set_tool(tool);
                self.workspace.new_tool();
            },
            Command::ToggleMode => {
                self.ascii_mode = !self.ascii_mode;
            },
            Command::SetViewOffsetX(offset) => {
                self.workspace.set_view_offset_x(offset);
            },
        }
    }

    fn mouse_event(&mut self, event: MouseEvent)
        ensures
            final(self)@ == old(self)@.after_pointer(event),
    {
        let receiver = match self.current_mouse_element {
            Some(focus) => Some(focus),
            None => match event.kind {
                MouseEventKind::Down(_) => {
                    if self.tool_menu.coord_within(event.column, event.row) {
                        Some(Focus::ToolMenu)
                    } else if self.workspace.coord_within(event.column, event.row) {
                        Some(Focus::Workspace)
                    } else if self.horizontal_scroll.coord_within(event.column, event.row) {
                        Some(Focus::HorizontalScroll)
                    } else {
                        None
                    }
                },
                _ => None,
            },
        };
        if let Some(focus) = receiver {
            self.current_mouse_element = Some(focus);
            let command = match focus {
                Focus::ToolMenu => self.tool_menu.mouse_event(event),
                Focus::Workspace => self.workspace.mouse_event(event),
                Focus::HorizontalScroll => self.horizontal_scroll.mouse_event(event),
            };
            self.obey(command);
            if let MouseEventKind::Up(_) = event.kind {
                self.current_mouse_element = None;
            }
        }
    }

    fn key_event(&mut self, event: KeyEvent) -> (action: Action)
        ensures
            final(self)@ == old(self)@.after_key(event),
            action == Session::action(Event::Key(event)),
    {
        if event.control {
            match event.code {
                KeyCode::Char('c') => {
                    self.should_exit = true;
                    return Action::Nothing;
                },
                KeyCode::Char('z') => {
                    self.workspace.undo();
                    self.workspace.new_tool();
                    return Action::Nothing;
                },
                KeyCode::Char('s') => {
                    return Action::Save;
                },
                _ => {},
            }
        }
        let command = self.workspace.key_event(event);
        self.obey(command);
        Action::Nothing
    }

    pub fn handle_event(&mut self, event: Event) -> (action: Action)
        ensures
            final(self)@ == old(self)@.after(event),
            action == Session::action(event),
    {
        match event {
            Event::Key(k) => self.key_event(k),
            Event::Mouse(m) => {
                self.mouse_event(m);
                Action::Nothing
            },
            Event::Resize(x, y) => {
                self.tool_menu.resize_event(x, y);
                self.workspace.resize_event(x, y);
                self.horizontal_scroll.resize_event(x, y);
                self.should_clear = true;
                Action::Nothing
            },
        }
    }

    /// Renders a frame to `buffer` and gives the pieces of text that make up
    /// the screen. The scroll bar is brought up to date with the view
    /// first.
    pub fn render(&mut self, buffer: &mut Buffer) -> (pieces: Vec<Draw>)
        ensures
            final(self)@ == (Session { bar: old(self)@.bar_shown(), ..old(self)@ }),
            final(buffer)@ == old(self)@.desk.frame(old(self)@.ascii_mode),
            pieces@.len() == old(self)@.desk.size_y + 3,
            forall|i: int|
                0 <= i < pieces@.len() ==> (
                    (#[trigger] pieces@[i]).column as int,
                    pieces@[i].row as int,
                    pieces@[i].text@,
                ) == old(self)@.piece(i),
    {
        let ghost session = self@;
        let (view_start, view_end, content) = self.workspace.get_parameters();
        self.horizontal_scroll.update_params(view_start.0, view_end.0, content.0);
        let mut pieces: Vec<Draw> = Vec::new();
        let (menu_x, menu_y) = self.tool_menu.position();
        let (first, second) = self.tool_menu.render();
        pieces.push(Draw { column: menu_x as u32, row: menu_y as u32, text: first });
        pieces.push(Draw { column: menu_x as u32, row: menu_y as u32 + 1, text: second });
        let (x, y) = self.workspace.position();
        let lines = self.workspace.render(buffer, self.ascii_mode);
        let ghost screen = session.desk.screen(session.ascii_mode);
        assert(lines.deep_view().len() == lines@.len());
        let mut i: usize = 0;
        while i < lines.len()
            invariant
                i <= lines@.len(),
                lines@.len() == session.desk.size_y,
                lines@.len() <= u16::MAX,
                lines.deep_view() == screen,
                screen == session.desk.screen(session.ascii_mode),
                x == session.desk.x,
                y == session.desk.y,
                pieces@.len() == i + 2,
                forall|k: int|
                    0 <= k < pieces@.len() ==> (
                        (#[trigger] pieces@[k]).column as int,
                        pieces@[k].row as int,
                        pieces@[k].text@,
                    ) == session.piece(k),
            decreases lines@.len() - i,
        {
            let line = lines[i].clone();
            assert(line@ == lines.deep_view()[i as int]);
            pieces.push(Draw { column: x as u32, row: y as u32 + i as u32, text: line });
            i = i + 1;
        }
        let (bar_x, bar_y) = self.horizontal_scroll.position();
        let bar = self.horizontal_scroll.render();
        pieces.push(Draw { column: bar_x as u32, row: bar_y as u32, text: bar });
        pieces
    }
}

} // verus!
