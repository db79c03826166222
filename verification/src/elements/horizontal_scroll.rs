//! The horizontal scroll bar: which part of the content the view shows, and
//! where a press on the bar scrolls to.

use vstd::prelude::*;
use crate::elements::{covers, MouseEvent};
use crate::strings::push_char;
use crate::tools::text::capped;
use crate::tools::{Command, KeyEvent, MouseButton, MouseEventKind};

verus! {

/// The glyph of the bar where the view is not.
pub const TRACK: char = '░';

/// The glyph of the bar where the view is.
pub const THUMB: char = '▓';

/// What a scroll bar holds: where it lies on the screen and how long it is,
/// the columns of the world at which the view begins and ends, and how far
/// the content reaches.
pub struct Bar {
    pub x: int,
    pub y: int,
    pub length: int,
    pub view_start: int,
    pub view_end: int,
    pub max_size: int,
}

impl Bar {
    /// The bar of a screen of `x` columns and `y` rows: in the last row,
    /// from the second column to the last but one, with content as wide as
    /// the bar.
    pub open spec fn fresh(x: int, y: int) -> Bar {
        (Bar { x: 0, y: 0, length: 0, view_start: 0, view_end: 0, max_size: 0 }).resized(x, y)
    }

    /// The bar after the screen was resized to `x` columns and `y` rows.
    pub open spec fn resized(self, x: int, y: int) -> Bar {
        let length = if x >= 2 { x - 2 } else { 0 };
        Bar { x: 1, y: if y >= 1 { y - 1 } else { 0 }, length, max_size: length, ..self }
    }

    /// Whether the bar covers the cell `(x, y)` of the screen.
    pub open spec fn covers(self, x: int, y: int) -> bool {
        covers(self.x, self.y, self.length, 1, x, y)
    }

    /// The column of the world that a press in the column `x` of the screen
    /// scrolls to: as far into the content as the press is into the bar, as
    /// far as a machine word counts.
    pub open spec fn target(self, x: int) -> int {
        capped((self.max_size * (if x >= self.x { x - self.x } else { 0 })) / self.length)
    }

    /// What the bar asks for after a pointer event: a press or a drag of
    /// the left button scrolls, unless the bar has no length, and a release
    /// hands the pointer back.
    pub open spec fn pointer_command(self, event: MouseEvent) -> Command {
        match event.kind {
            MouseEventKind::Down(MouseButton::Left) | MouseEventKind::Drag(MouseButton::Left) => {
                if self.length > 0 {
                    Command::SetViewOffsetX(self.target(event.column as int) as usize)
                } else {
                    Command::NoOp
                }
            },
            MouseEventKind::Up(_) => Command::ResetFocus,
            _ => Command::NoOp,
        }
    }

    /// How far the content reaches for the bar: at least to the end of the
    /// view.
    pub open spec fn reach(self) -> int {
        if self.max_size >= self.view_end {
            self.max_size
        } else {
            self.view_end
        }
    }

    /// The glyph of the bar in its column `offset`: the thumb from where the
    /// view begins to where it ends, each scaled from the content to the bar,
    /// and the track elsewhere.
    pub open spec fn glyph(self, offset: int) -> char {
        if self.reach() > 0 && (self.length * self.view_start) / self.reach() <= offset < (self.length
            * self.view_end) / self.reach() {
            THUMB
        } else {
            TRACK
        }
    }

    /// The bar as it is shown.
    pub open spec fn shown(self) -> Seq<char> {
        Seq::new(self.length as nat, |offset: int| self.glyph(offset))
    }
}

/// The scroll bar below the workspace.
pub struct HorizontalScroll {
    x: u16,
    y: u16,
    length: u16,
    view_start: usize,
    view_end: usize,
    max_size: usize,
}

impl View for HorizontalScroll {
    type V = Bar;

    closed spec fn view(&self) -> Bar {
        Bar {
            x: self.x as int,
            y: self.y as int,
            length: self.length as int,
            view_start: self.view_start as int,
            view_end: self.view_end as int,
            max_size: self.max_size as int,
        }
    }
}

impl HorizontalScroll {
    pub fn new(x: u16, y: u16) -> (bar: HorizontalScroll)
        ensures
            bar@ == Bar::fresh(x as int, y as int),
    {
        let mut new = HorizontalScroll { x: 0, y: 0, length: 0, view_start: 0, view_end: 0, max_size: 0 };
        new.resize_event(x, y);
        new
    }

    pub fn update_params(&mut self, view_start: usize, view_end: usize, max_size: usize)
        ensures
            final(self)@ == (Bar {
                view_start: view_start as int,
                view_end: view_end as int,
                max_size: max_size as int,
                ..old(self)@
            }),
    {
        self.view_start = view_start;
        self.view_end = view_end;
        self.max_size = max_size;
    }

    pub fn resize_event(&mut self, x: u16, y: u16)
        ensures
            final(self)@ == old(self)@.resized(x as int, y as int),
    {
        self.x = 1;
        self.y = y.saturating_sub(1);
        self.length = x.saturating_sub(2);
        self.max_size = self.length as usize;
    }

    pub fn coord_within(&self, x: u16, y: u16) -> (inside: bool)
        ensures
            inside == self@.covers(x as int, y as int),
    {
        (self.x <= x && (x as u32) < self.x as u32 + self.length as u32) && y == self.y
    }

    /// `scale * part / whole`, as far as a machine word counts.
    fn scaled(scale: usize, part: usize, whole: usize) -> (v: usize)
        requires
            whole > 0,
        ensures
            v == capped((scale * part) / (whole as int)),
    {
        assert(scale * part <= 0xffff_ffff_ffff_ffff * 0xffff_ffff_ffff_ffff) by (nonlinear_arith)
            requires
                0 <= scale <= 0xffff_ffff_ffff_ffff,
                0 <= part <= 0xffff_ffff_ffff_ffff,
        ;
        let wide: u128 = (scale as u128 * part as u128) / whole as u128;
        if wide > usize::MAX as u128 {
            usize::MAX
        } else {
            wide as usize
        }
    }

    pub fn mouse_event(&mut self, event: MouseEvent) -> (command: Command)
        ensures
            final(self)@ == old(self)@,
            command == old(self)@.pointer_command(event),
    {
        match event.kind {
            MouseEventKind::Down(MouseButton::Left) | MouseEventKind::Drag(MouseButton::Left) => {
                if self.length == 0 {
                    return Command::NoOp;
                }
                let cursor_offset = event.column.saturating_sub(self.x);
                let midpoint = Self::scaled(self.max_size, cursor_offset as usize, self.length as usize);
                Command::SetViewOffsetX(midpoint)
            },
            MouseEventKind::Up(_) => Command::ResetFocus,
            _ => Command::NoOp,
        }
    }

    pub fn key_event(&mut self, event: KeyEvent) -> (command: Command)
        ensures
            final(self)@ == old(self)@,
            command == Command::NoOp,
    {
        Command::NoOp
    }

    /// Where the bar begins on the screen, as `(column, row)`.
    pub fn position(&self) -> (at: (u16, u16))
        ensures
            at.0 == self@.x,
            at.1 == self@.y,
    {
        (self.x, self.y)
    }

    /// The bar as it is shown, one glyph for each of its columns.
    pub fn render(&self) -> (bar: String)
        ensures
            bar@ == self@.shown(),
    {
        let max_size = if self.max_size >= self.view_end { self.max_size } else { self.view_end };
        let mut bar = String::new();
        if max_size == 0 {
            let mut offset: u16 = 0;
            while offset < self.length
                invariant
                    offset <= self.length,
                    self@.reach() == 0,
                    bar@ == self@.shown().take(offset as int),
                decreases self.length - offset,
            {
                proof {
                    assert(self@.shown().take(offset + 1) =~= self@.shown().take(offset as int).push(TRACK));
                }
                push_char(&mut bar, TRACK);
                offset = offset + 1;
            }
            assert(self@.shown().take(offset as int) =~= self@.shown());
            return bar;
        }
        let view_start_bar = Self::scaled(self.length as usize, self.view_start, max_size);
        let view_end_bar = Self::scaled(self.length as usize, self.view_end, max_size);
        let mut offset: u16 = 0;
        while offset < self.length
            invariant
                offset <= self.length,
                max_size == self@.reach(),
                max_size > 0,
                view_start_bar == capped((self@.length * self@.view_start) / self@.reach()),
                view_end_bar == capped((self@.length * self@.view_end) / self@.reach()),
                bar@ == self@.shown().take(offset as int),
            decreases self.length - offset,
        {
            let c = if (offset as usize) < view_start_bar {
                TRACK
            } else if (offset as usize) < view_end_bar {
                THUMB
            } else {
                TRACK
            };
            proof {
                assert(c == self@.glyph(offset as int));
                assert(self@.shown().take(offset + 1) =~= self@.shown().take(offset as int).push(c));
            }
            push_char(&mut bar, c);
            offset = offset + 1;
        }
        assert(self@.shown().take(offset as int) =~= self@.shown());
        bar
    }
}

} // verus!
