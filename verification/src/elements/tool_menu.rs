//! The tool menu: a row of labels, some of which select a tool or switch
//! the alphabet, and below it the name of the selected tool.

use vstd::prelude::*;
use vstd::string::{StrSliceExecFns, StringExecFns};
use crate::elements::{covers, MouseEvent};
use crate::strings::push_char;
use crate::tools::{Command, KeyEvent, MouseButton, MouseEventKind, ToolSelect};

verus! {

/// An item of the menu.
pub enum MenuElement {
    Divider,
    Text(&'static str),
    Tool(&'static str, ToolSelect),
    Mode(&'static str),
}

impl MenuElement {
    /// What the item shows: a bar between two spaces for a divider, its
    /// label for any other item.
    pub open spec fn label(self) -> Seq<char> {
        match self {
            MenuElement::Divider => " | "@,
            MenuElement::Text(t) => t@,
            MenuElement::Tool(t, _) => t@,
            MenuElement::Mode(t) => t@,
        }
    }

    /// How many columns the item takes: three for a divider, one for each
    /// character of its label for any other item.
    pub open spec fn spec_width(self) -> nat {
        match self {
            MenuElement::Divider => 3,
            MenuElement::Text(t) => t@.len(),
            MenuElement::Tool(t, _) => t@.len(),
            MenuElement::Mode(t) => t@.len(),
        }
    }

    /// What a press on the item asks for: a tool item selects its tool, the
    /// mode item switches the alphabet, and any other item hands the pointer
    /// back.
    pub open spec fn command(self) -> Command {
        match self {
            MenuElement::Tool(_, tool) => Command::SetTool(tool),
            MenuElement::Mode(_) => Command::ToggleMode,
            _ => Command::ResetFocus,
        }
    }

    pub fn width(&self) -> (w: usize)
        ensures
            w == self.spec_width(),
    {
        match self {
            MenuElement::Divider => 3,
            MenuElement::Text(t) => t.unicode_len(),
            MenuElement::Tool(t, _) => t.unicode_len(),
            MenuElement::Mode(t) => t.unicode_len(),
        }
    }

    /// What the item shows.
    pub fn text(&self) -> (t: &'static str)
        ensures
            t@ == self.label(),
    {
        match self {
            MenuElement::Divider => " | ",
            MenuElement::Text(t) => t,
            MenuElement::Tool(t, _) => t,
            MenuElement::Mode(t) => t,
        }
    }
}

/// The columns that the first `n` of `elements` take together.
pub open spec fn width_of(elements: Seq<MenuElement>, n: int) -> int
    decreases n,
{
    if n <= 0 {
        0
    } else {
        width_of(elements, n - 1) + elements[n - 1].spec_width()
    }
}

/// The item among the first `n` of `elements` that takes the column
/// `offset`, counted from where the menu begins: none where the column is
/// past them.
pub open spec fn item_at(elements: Seq<MenuElement>, n: int, offset: int) -> Option<int>
    decreases n,
{
    if n <= 0 {
        None
    } else if width_of(elements, n - 1) <= offset < width_of(elements, n) {
        Some(n - 1)
    } else {
        item_at(elements, n - 1, offset)
    }
}

/// What the first `n` of `elements` show, one after the other.
pub open spec fn labels(elements: Seq<MenuElement>, n: int) -> Seq<char>
    decreases n,
{
    if n <= 0 {
        Seq::empty()
    } else {
        labels(elements, n - 1) + elements[n - 1].label()
    }
}

/// The items of the menu.
pub open spec fn menu_items() -> Seq<MenuElement> {
    seq![
        MenuElement::Text("tpaint "),
        MenuElement::Mode("(mode)"),
        MenuElement::Divider,
        MenuElement::Tool("#", ToolSelect::Freehand),
        MenuElement::Divider,
        MenuElement::Tool("&", ToolSelect::Erase),
        MenuElement::Divider,
        MenuElement::Tool("[]", ToolSelect::Rectangle),
        MenuElement::Divider,
        MenuElement::Tool("T", ToolSelect::Text),
    ]
}

/// What a tool menu holds: where it lies on the screen and how long it is,
/// its items, and the tool that is selected.
pub struct Menu {
    pub x: int,
    pub y: int,
    pub length: int,
    pub elements: Seq<MenuElement>,
    pub selected: ToolSelect,
}

impl Menu {
    /// The menu of a screen of `x` columns: in the first row, all columns
    /// but the last, with no tool selected.
    pub open spec fn fresh(x: int) -> Menu {
        Menu {
            x: 0,
            y: 0,
            length: if x >= 1 { x - 1 } else { 0 },
            elements: menu_items(),
            selected: ToolSelect::Idle,
        }
    }

    /// The menu after the screen was resized to `x` columns.
    pub open spec fn resized(self, x: int) -> Menu {
        Menu { x: 0, y: 0, length: if x >= 1 { x - 1 } else { 0 }, ..self }
    }

    /// Whether the menu covers the cell `(x, y)` of the screen.
    pub open spec fn covers(self, x: int, y: int) -> bool {
        covers(self.x, self.y, self.length, 1, x, y)
    }

    /// The item that a press of the left button in the column `x` of the
    /// screen hits.
    pub open spec fn hit(self, x: int) -> Option<int> {
        item_at(self.elements, self.elements.len() as int, if x >= self.x { x - self.x } else { 0 })
    }

    /// What the menu asks for after a pointer event: what the item asks for
    /// that a press of the left button hits, and the pointer back after
    /// everything else.
    pub open spec fn pointer_command(self, event: MouseEvent) -> Command {
        match event.kind {
            MouseEventKind::Down(MouseButton::Left) => match self.hit(event.column as int) {
                Some(i) => self.elements[i].command(),
                None => Command::ResetFocus,
            },
            _ => Command::ResetFocus,
        }
    }

    /// The menu after a pointer event: a press on a tool item selects the
    /// tool.
    pub open spec fn after_pointer(self, event: MouseEvent) -> Menu {
        match self.pointer_command(event) {
            Command::SetTool(tool) => Menu { selected: tool, ..self },
            _ => self,
        }
    }

    /// The first line of the menu: what its items show.
    pub open spec fn first_line(self) -> Seq<char> {
        labels(self.elements, self.elements.len() as int)
    }

    /// The second line of the menu: the name of the selected tool, and
    /// spaces up to the length of the menu.
    pub open spec fn second_line(self) -> Seq<char> {
        let name = self.selected.label();
        name + Seq::new(if self.length > name.len() { (self.length - name.len()) as nat } else { 0 }, |i: int| ' ')
    }
}

/// The menu above the workspace.
pub struct ToolMenu {
    x: u16,
    y: u16,
    length: u16,
    elements: Vec<MenuElement>,
    selected: ToolSelect,
}

impl View for ToolMenu {
    type V = Menu;

    closed spec fn view(&self) -> Menu {
        Menu {
            x: self.x as int,
            y: self.y as int,
            length: self.length as int,
            elements: self.elements@,
            selected: self.selected,
        }
    }
}

impl ToolMenu {
    pub fn new(x: u16, y: u16) -> (menu: ToolMenu)
        ensures
            menu@ == Menu::fresh(x as int),
    {
        let mut elements: Vec<MenuElement> = Vec::new();
        elements.push(MenuElement::Text("tpaint "));
        elements.push(MenuElement::Mode("(mode)"));
        elements.push(MenuElement::Divider);
        elements.push(MenuElement::Tool("#", ToolSelect::Freehand));
        elements.push(MenuElement::Divider);
        elements.push(MenuElement::Tool("&", ToolSelect::Erase));
        elements.push(MenuElement::Divider);
        elements.push(MenuElement::Tool("[]", ToolSelect::Rectangle));
        elements.push(MenuElement::Divider);
        elements.push(MenuElement::Tool("T", ToolSelect::Text));
        assert(elements@ =~= menu_items());
        let mut new = ToolMenu { x: 0, y: 0, length: 0, elements, selected: ToolSelect::Idle };
        new.resize_event(x, y);
        new
    }

    pub fn resize_event(&mut self, x: u16, y: u16)
        ensures
            final(self)@ == old(self)@.resized(x as int),
    {
        self.x = 0;
        self.y = 0;
        self.length = x.saturating_sub(1);
    }

    pub fn coord_within(&self, x: u16, y: u16) -> (inside: bool)
        ensures
            inside == self@.covers(x as int, y as int),
    {
        (self.x <= x && (x as u32) < self.x as u32 + self.length as u32) && self.y == y
    }

    pub fn mouse_event(&mut self, event: MouseEvent) -> (command: Command)
        ensures
            final(self)@ == old(self)@.after_pointer(event),
            command == old(self)@.pointer_command(event),
    {
        match event.kind {
            MouseEventKind::Down(MouseButton::Left) => {
                let offset = event.column.saturating_sub(self.x) as usize;
                let mut counter: usize = 0;
                let mut i: usize = 0;
                while i < self.elements.len()
                    invariant
                        i <= self.elements@.len(),
                        self@ == old(self)@,
                        event.kind == MouseEventKind::Down(MouseButton::Left),
                        offset == if event.column >= self@.x {
                            event.column - self@.x
                        } else {
                            0
                        },
                        counter == width_of(self.elements@, i as int),
                        counter <= offset,
                        item_at(self.elements@, i as int, offset as int) is None,
                    decreases self.elements@.len() - i,
                {
                    let width = self.elements[i].width();
                    if width > offset - counter {
                        let command = match &self.elements[i] {
                            MenuElement::Tool(_, tool) => Command::SetTool(*tool),
                            MenuElement::Mode(_) => Command::ToggleMode,
                            _ => Command::ResetFocus,
                        };
                        proof {
                            assert(width_of(self.elements@, i + 1) == counter + width);
                            lemma_item_at(self.elements@, self.elements@.len() as int, i as int, offset as int);
                        }
                        if let Command::SetTool(tool) = command {
                            self.selected = tool;
                        }
                        return command;
                    }
                    counter = counter + width;
                    i = i + 1;
                }
                Command::ResetFocus
            },
            _ => Command::ResetFocus,
        }
    }

    pub fn key_event(&mut self, event: KeyEvent) -> (command: Command)
        ensures
            final(self)@ == old(self)@,
            command == Command::NoOp,
    {
        Command::NoOp
    }

    /// Where the menu begins on the screen, as `(column, row)`.
    pub fn position(&self) -> (at: (u16, u16))
        ensures
            at.0 == self@.x,
            at.1 == self@.y,
    {
        (self.x, self.y)
    }

    /// The two lines of the menu.
    pub fn render(&self) -> (lines: (String, String))
        ensures
            lines.0@ == self@.first_line(),
            lines.1@ == self@.second_line(),
    {
        let mut first = String::new();
        let mut i: usize = 0;
        while i < self.elements.len()
            invariant
                i <= self.elements@.len(),
                first@ == labels(self.elements@, i as int),
            decreases self.elements@.len() - i,
        {
            first.append(self.elements[i].text());
            i = i + 1;
        }
        let name = self.selected.name();
        let mut second = String::from_str(name);
        let used = name.unicode_len();
        let mut n: usize = used;
        while n < self.length as usize
            invariant
                used == name@.len(),
                used <= n,
                n <= self.length || n == used,
                second@ == name@ + Seq::new((n - used) as nat, |i: int| ' '),
            decreases self.length - n,
        {
            proof {
                assert((name@ + Seq::new((n - used) as nat, |i: int| ' ')).push(' ') =~= name@ + Seq::new(
                    (n + 1 - used) as nat,
                    |i: int| ' ',
                ));
            }
            push_char(&mut second, ' ');
            n = n + 1;
        }
        proof {
            assert(second@ =~= self@.second_line());
        }
        (first, second)
    }
}

/// The item that takes a column is the one before which the items take no
/// more columns than that, and with which they take more.
pub proof fn lemma_item_at(elements: Seq<MenuElement>, n: int, i: int, offset: int)
    requires
        0 <= i < n <= elements.len(),
        width_of(elements, i) <= offset < width_of(elements, i + 1),
    ensures
        item_at(elements, n, offset) == Some(i),
    decreases n,
{
    if n - 1 > i {
        lemma_width_grows(elements, i + 1, n - 1);
        lemma_item_at(elements, n - 1, i, offset);
    }
}

/// More items take no fewer columns.
pub proof fn lemma_width_grows(elements: Seq<MenuElement>, m: int, n: int)
    requires
        0 <= m <= n,
    ensures
        width_of(elements, m) <= width_of(elements, n),
    decreases n,
{
    if m < n {
        lemma_width_grows(elements, m, n - 1);
    }
}

} // verus!
