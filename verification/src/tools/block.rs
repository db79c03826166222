//! The block tool: a picture loaded from text, which lies where it was
//! loaded and takes no events.

use vstd::prelude::*;
use crate::buffer::Buffer;
use crate::marks::{
    clip_window, clipped, frame_of, glyph_mark, lemma_within_push, passes, same_box, spots, window, within,
    Mark,
};
use crate::strings::chars_of;
use crate::tools::{Command, KeyEvent, MouseEventKind};

verus! {

/// The row of the `i`-th character of `text`: the number of line feeds
/// before it.
pub open spec fn row_of(text: Seq<char>, i: int) -> int
    decreases i,
{
    if i <= 0 {
        0
    } else if text[i - 1] == '\n' {
        row_of(text, i - 1) + 1
    } else {
        row_of(text, i - 1)
    }
}

/// The column of the `i`-th character of `text`: the number of characters
/// between it and the last line feed before it.
pub open spec fn column_of(text: Seq<char>, i: int) -> int
    decreases i,
{
    if i <= 0 {
        0
    } else if text[i - 1] == '\n' {
        0
    } else {
        column_of(text, i - 1) + 1
    }
}

/// Whether the `i`-th character of `text` is part of the picture. A space
/// is not: it lets what lies under the picture show through. Nor is what
/// ends a line: a line feed, or a carriage return just before one.
pub open spec fn shows(text: Seq<char>, i: int) -> bool {
    &&& text[i] != ' '
    &&& text[i] != '\n'
    &&& !(text[i] == '\r' && i + 1 < text.len() && text[i + 1] == '\n')
}

/// The picture that the first `n` characters of `text` hold: each character
/// that is part of it, with its column and row, in the order of the text.
pub open spec fn picture(text: Seq<char>, n: int) -> Seq<(usize, usize, char)>
    decreases n,
{
    if n <= 0 {
        Seq::empty()
    } else if shows(text, n - 1) {
        picture(text, n - 1).push(
            (column_of(text, n - 1) as usize, row_of(text, n - 1) as usize, text[n - 1]),
        )
    } else {
        picture(text, n - 1)
    }
}

/// The marks of a picture: each of its characters at its cell.
pub open spec fn block_marks(chars: Seq<(usize, usize, char)>) -> Seq<Mark> {
    Seq::new(chars.len(), |i: int| glyph_mark(chars[i].0 as int, chars[i].1 as int, chars[i].2))
}

/// A picture: characters, each with the cell that it lies at.
pub struct Block {
    chars: Vec<(usize, usize, char)>,
}

impl View for Block {
    type V = Seq<(usize, usize, char)>;

    closed spec fn view(&self) -> Seq<(usize, usize, char)> {
        self.chars@
    }
}

impl Block {
    /// The picture that `text` holds, one row for each line.
    pub fn new(text: &str) -> (tool: Block)
        ensures
            tool@ == picture(text@, text@.len() as int),
    {
        let source = chars_of(text);
        let mut chars: Vec<(usize, usize, char)> = Vec::new();
        let mut x: usize = 0;
        let mut y: usize = 0;
        let mut i: usize = 0;
        while i < source.len()
            invariant
                i <= source@.len(),
                source@ == text@,
                x == column_of(text@, i as int),
                y == row_of(text@, i as int),
                x <= i,
                y <= i,
                chars@ == picture(text@, i as int),
            decreases source@.len() - i,
        {
            let c = source[i];
            let ends_line = c == '\n' || (c == '\r' && i + 1 < source.len() && source[i + 1] == '\n');
            if c != ' ' && !ends_line {
                chars.push((x, y, c));
            }
            if c == '\n' {
                x = 0;
                y = y + 1;
            } else {
                x = x + 1;
            }
            i = i + 1;
        }
        Block { chars }
    }

    pub fn mouse_event(&mut self, x: isize, y: isize, kind: MouseEventKind) -> (command: Command)
        ensures
            final(self)@ == old(self)@,
            command == Command::NoOp,
    {
        Command::NoOp
    }

    pub fn key_event(&mut self, event: KeyEvent) -> (command: Command)
        ensures
            final(self)@ == old(self)@,
            command == Command::NoOp,
    {
        Command::NoOp
    }

    /// The smallest rectangle around the picture, as `(min_x, max_x, min_y,
    /// max_y)`.
    pub fn bounding_box(&self) -> (found: Option<(usize, usize, usize, usize)>)
        ensures
            same_box(found, frame_of(spots(block_marks(self@)))),
    {
        let ghost at = spots(block_marks(self@));
        let mut found: Option<(usize, usize, usize, usize)> = None;
        let mut i: usize = 0;
        while i < self.chars.len()
            invariant
                i <= self.chars@.len(),
                at == spots(block_marks(self@)),
                same_box(found, frame_of(at.take(i as int))),
            decreases self.chars@.len() - i,
        {
            let (x, y, _) = self.chars[i];
            proof {
                assert(at.take(i + 1).drop_last() =~= at.take(i as int));
                assert(at.take(i + 1).last() == (x as int, y as int));
            }
            found = match found {
                None => Some((x, x, y, y)),
                Some(b) => Some(
                    (
                        if x < b.0 { x } else { b.0 },
                        if x > b.1 { x } else { b.1 },
                        if y < b.2 { y } else { b.2 },
                        if y > b.3 { y } else { b.3 },
                    ),
                ),
            };
            i = i + 1;
        }
        assert(at.take(i as int) =~= at);
        found
    }

    pub fn complete(&self) -> (done: bool)
        ensures
            done,
    {
        true
    }

    fn draw(&self, buffer: &mut Buffer, ascii_mode: bool, clip: Option<(usize, usize, usize, usize)>)
        ensures
            final(buffer)@ == old(buffer)@.apply_all(
                within(block_marks(self@), clip_window(clip)),
                ascii_mode,
            ),
    {
        let ghost marks = block_marks(self@);
        let ghost w = clip_window(clip);
        let mut i: usize = 0;
        proof {
            assert(within(marks.take(0), w) =~= Seq::<Mark>::empty());
        }
        while i < self.chars.len()
            invariant
                i <= self.chars@.len(),
                marks == block_marks(self@),
                w == clip_window(clip),
                buffer@ == old(buffer)@.apply_all(within(marks.take(i as int), w), ascii_mode),
            decreases self.chars@.len() - i,
        {
            let (x, y, c) = self.chars[i];
            proof {
                assert(marks.take(i + 1) =~= marks.take(i as int).push(marks[i as int]));
                lemma_within_push(old(buffer)@, marks.take(i as int), marks[i as int], w, ascii_mode);
            }
            if passes(x, y, clip) {
                buffer.render_point(x, y, c);
            }
            i = i + 1;
        }
        assert(marks.take(i as int) =~= marks);
    }

    pub fn render(&self, buffer: &mut Buffer, ascii_mode: bool)
        ensures
            final(buffer)@ == old(buffer)@.apply_all(block_marks(self@), ascii_mode),
    {
        self.draw(buffer, ascii_mode, None)
    }

    pub fn render_bounded(
        &self,
        min_x: usize,
        max_x: usize,
        min_y: usize,
        max_y: usize,
        buffer: &mut Buffer,
        ascii_mode: bool,
    )
        ensures
            final(buffer)@ == old(buffer)@.apply_all(
                clipped(block_marks(self@), window(min_x, max_x, min_y, max_y)),
                ascii_mode,
            ),
    {
        self.draw(buffer, ascii_mode, Some((min_x, max_x, min_y, max_y)))
    }
}

} // verus!
