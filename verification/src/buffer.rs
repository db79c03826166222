//! The canvas: a grid of characters that grows where it is written to.

use vstd::prelude::*;
use crate::strings::push_char;

verus! {

/// What a canvas holds: the world coordinate of its top-left cell and its
/// rows, each as long as its rightmost written cell demands.
pub struct Canvas {
    pub start_x: int,
    pub start_y: int,
    pub rows: Seq<Seq<char>>,
}

/// `s`, lengthened with `fill` to `len` items where it is shorter.
pub open spec fn padded<A>(s: Seq<A>, len: int, fill: A) -> Seq<A> {
    if s.len() < len {
        s + Seq::new((len - s.len()) as nat, |i: int| fill)
    } else {
        s
    }
}

impl Canvas {
    /// The empty canvas whose top-left cell is `(start_x, start_y)`.
    pub open spec fn blank(start_x: int, start_y: int) -> Canvas {
        Canvas { start_x, start_y, rows: Seq::empty() }
    }

    /// The character at the world cell `(x, y)`: a space wherever nothing
    /// has been stored.
    pub open spec fn get(self, x: int, y: int) -> char {
        let lx = x - self.start_x;
        let ly = y - self.start_y;
        if 0 <= ly < self.rows.len() && 0 <= lx < self.rows[ly].len() {
            self.rows[ly][lx]
        } else {
            ' '
        }
    }

    /// Whether the canvas can store the world cell `(x, y)`: the cell is not
    /// left of or above the top-left cell, its coordinates are machine words,
    /// and a row and a column can be counted up to it.
    pub open spec fn holds(self, x: int, y: int) -> bool {
        &&& self.start_x <= x <= usize::MAX
        &&& x - self.start_x < usize::MAX
        &&& self.start_y <= y <= usize::MAX
        &&& y - self.start_y < usize::MAX
    }

    /// The canvas after `c` was written to the world cell `(x, y)`. Rows are
    /// added up to the cell's row, and that row is filled with spaces up to
    /// the cell. A cell that the canvas cannot store is left out.
    pub open spec fn put(self, x: int, y: int, c: char) -> Canvas {
        if self.holds(x, y) {
            let lx = x - self.start_x;
            let ly = y - self.start_y;
            let grown = padded(self.rows, ly + 1, Seq::<char>::empty());
            Canvas {
                start_x: self.start_x,
                start_y: self.start_y,
                rows: grown.update(ly, padded(grown[ly], lx + 1, ' ').update(lx, c)),
            }
        } else {
            self
        }
    }

    /// The rows as lines of exactly `width` characters: a longer row is cut,
    /// a shorter one filled with spaces.
    pub open spec fn lines(self, width: nat) -> Seq<Seq<char>> {
        Seq::new(
            self.rows.len(),
            |i: int| Seq::new(width, |j: int| if j < self.rows[i].len() { self.rows[i][j] } else { ' ' }),
        )
    }
}

/// A canvas: the characters of a frame, stored row by row from a top-left
/// cell of the world on.
pub struct Buffer {
    start_x: usize,
    start_y: usize,
    grid: Vec<Vec<char>>,
}

impl View for Buffer {
    type V = Canvas;

    closed spec fn view(&self) -> Canvas {
        Canvas {
            start_x: self.start_x as int,
            start_y: self.start_y as int,
            rows: Seq::new(self.grid@.len(), |i: int| self.grid@[i]@),
        }
    }
}

impl Buffer {
    pub fn new() -> (buffer: Buffer)
        ensures
            buffer@ == Canvas::blank(0, 0),
    {
        let buffer = Buffer { start_x: 0, start_y: 0, grid: Vec::new() };
        assert(buffer@.rows =~= Seq::empty());
        buffer
    }

    /// Empties the canvas and puts its top-left cell at the world origin.
    pub fn new_frame(&mut self)
        ensures
            final(self)@ == Canvas::blank(0, 0),
    {
        self.start_x = 0;
        self.start_y = 0;
        self.grid.clear();
        assert(self@.rows =~= Seq::empty());
    }

    /// Empties the canvas and puts its top-left cell at `(start_x, start_y)`.
    pub fn new_frame_bounded(&mut self, start_x: usize, start_y: usize)
        ensures
            final(self)@ == Canvas::blank(start_x as int, start_y as int),
    {
        self.start_x = start_x;
        self.start_y = start_y;
        self.grid.clear();
        assert(self@.rows =~= Seq::empty());
    }

    pub fn get_point(&self, x: usize, y: usize) -> (c: char)
        ensures
            c == self@.get(x as int, y as int),
    {
        if x < self.start_x || y < self.start_y {
            return ' ';
        }
        let lx = x - self.start_x;
        let ly = y - self.start_y;
        if ly < self.grid.len() {
            if lx < self.grid[ly].len() {
                return self.grid[ly][lx];
            }
        }
        ' '
    }

    pub fn render_point(&mut self, x: usize, y: usize, c: char)
        ensures
            final(self)@ == old(self)@.put(x as int, y as int, c),
    {
        if x < self.start_x || y < self.start_y {
            return ;
        }
        let lx = x - self.start_x;
        let ly = y - self.start_y;
        if lx == usize::MAX || ly == usize::MAX {
            return ;
        }
        let ghost before = self@;
        while self.grid.len() < ly + 1
            invariant
                ly < usize::MAX,
                self.start_x == old(self).start_x,
                self.start_y == old(self).start_y,
                old(self).grid@.len() <= self.grid@.len(),
                self.grid@.len() <= old(self).grid@.len() || self.grid@.len() <= ly + 1,
                forall|i: int| 0 <= i < old(self).grid@.len() ==> self.grid@[i] == old(self).grid@[i],
                forall|i: int| old(self).grid@.len() <= i < self.grid@.len() ==> self.grid@[i]@ == Seq::<char>::empty(),
            decreases ly + 1 - self.grid.len(),
        {
            self.grid.push(Vec::new());
        }
        let ghost grown = padded(before.rows, ly + 1, Seq::<char>::empty());
        assert(self@.rows =~= grown);
        while self.grid[ly].len() < lx + 1
            invariant
                lx < usize::MAX,
                ly < self.grid@.len(),
                self.start_x == old(self).start_x,
                self.start_y == old(self).start_y,
                self.grid@.len() == grown.len(),
                forall|i: int| 0 <= i < grown.len() && i != ly ==> self.grid@[i]@ == grown[i],
                grown[ly as int].len() <= self.grid@[ly as int]@.len(),
                self.grid@[ly as int]@.len() <= grown[ly as int].len() || self.grid@[ly as int]@.len() <= lx + 1,
                forall|j: int| 0 <= j < grown[ly as int].len() ==> self.grid@[ly as int]@[j] == grown[ly as int][j],
                forall|j: int| grown[ly as int].len() <= j < self.grid@[ly as int]@.len() ==> self.grid@[ly as int]@[j] == ' ',
            decreases lx + 1 - self.grid[ly as int].len(),
        {
            self.grid[ly].push(' ');
        }
        assert(self.grid@[ly as int]@ =~= padded(grown[ly as int], lx + 1, ' '));
        self.grid[ly][lx] = c;
        assert(self@.rows =~= grown.update(ly as int, padded(grown[ly as int], lx + 1, ' ').update(lx as int, c)));
    }

    /// The rows of the canvas, top to bottom.
    pub fn into_inner(self) -> (rows: Vec<Vec<char>>)
        ensures
            rows.deep_view() == self@.rows,
    {
        assert(self.grid.deep_view() =~~= self@.rows);
        self.grid
    }

    /// The rows as strings of exactly `width` characters each.
    pub fn output(&self, width: usize) -> (lines: Vec<String>)
        ensures
            lines.deep_view() == self@.lines(width as nat),
    {
        let mut lines: Vec<String> = Vec::new();
        let mut i: usize = 0;
        while i < self.grid.len()
            invariant
                i <= self.grid@.len(),
                lines@.len() == i,
                forall|k: int| 0 <= k < i ==> lines@[k]@ == self@.lines(width as nat)[k],
            decreases self.grid@.len() - i,
        {
            let mut line = String::new();
            let mut j: usize = 0;
            while j < width
                invariant
                    i < self.grid@.len(),
                    j <= width,
                    line@.len() == j,
                    forall|k: int| 0 <= k < j ==> line@[k] == self@.lines(width as nat)[i as int][k],
                decreases width - j,
            {
                let c = if j < self.grid[i].len() {
                    self.grid[i][j]
                } else {
                    ' '
                };
                push_char(&mut line, c);
                j = j + 1;
            }
            assert(line@ =~= self@.lines(width as nat)[i as int]);
            lines.push(line);
            i = i + 1;
        }
        assert(lines.deep_view() =~= self@.lines(width as nat));
        lines
    }
}

} // verus!
