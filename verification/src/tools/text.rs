//! The text tool: lines of typed characters below and right of an anchor
//! cell.

use vstd::prelude::*;
use crate::buffer::Buffer;
use crate::marks::{
    clip_window, clipped, glyph_mark, lemma_within_add, lemma_within_push, passes, same_box,
    window, within, Mark,
};
use crate::tools::{is_world, to_world, Command, KeyCode, KeyEvent, MouseEventKind};

verus! {

/// The state of a text tool: the anchor cell, the lines typed so far, and
/// whether text is being entered or has been finished.
pub struct Note {
    pub x: int,
    pub y: int,
    pub lines: Seq<Seq<char>>,
    pub in_progress: bool,
    pub finished: bool,
}

/// The length of the longest of `lines`: 0 where there is none.
pub open spec fn longest(lines: Seq<Seq<char>>) -> nat
    decreases lines.len(),
{
    if lines.len() == 0 {
        0
    } else if longest(lines.drop_last()) >= lines.last().len() {
        longest(lines.drop_last())
    } else {
        lines.last().len()
    }
}

/// `v`, or the largest machine word where `v` is beyond it.
pub open spec fn capped(v: int) -> int {
    if v <= usize::MAX {
        v
    } else {
        usize::MAX as int
    }
}

/// The marks of one line of text that begins at the cell `(x, y)`.
pub open spec fn row_marks(x: int, y: int, line: Seq<char>) -> Seq<Mark> {
    Seq::new(line.len(), |i: int| glyph_mark(x + i, y, line[i]))
}

/// The marks of the first `n` of `lines`, the first of them at `(x, y)` and
/// each of the others one row below the one before it.
pub open spec fn rows_marks(x: int, y: int, lines: Seq<Seq<char>>, n: int) -> Seq<Mark>
    decreases n,
{
    if n <= 0 {
        Seq::empty()
    } else {
        rows_marks(x, y, lines, n - 1) + row_marks(x, y + (n - 1), lines[n - 1])
    }
}

impl Note {
    /// The state before the first event.
    pub open spec fn fresh() -> Note {
        Note { x: 0, y: 0, lines: Seq::empty(), in_progress: false, finished: false }
    }

    /// The state after a pointer event at `(x, y)`. A press while no text is
    /// being entered puts the anchor at the cell, if it is a world cell, and
    /// begins the entry. A press while text is being entered ends the entry.
    /// No other event changes anything, and none changes a text that was
    /// finished.
    pub open spec fn pressed(self, x: int, y: int, kind: MouseEventKind) -> Note {
        if self.finished {
            self
        } else {
            match kind {
                MouseEventKind::Down(_) => if !self.in_progress {
                    if is_world(x) && is_world(y) {
                        Note { x, y, in_progress: true, ..self }
                    } else {
                        self
                    }
                } else {
                    Note { in_progress: false, finished: true, ..self }
                },
                _ => self,
            }
        }
    }

    /// What the tool asks for after a pointer event: to be finished where a
    /// press ended the entry.
    pub open spec fn press_command(self, kind: MouseEventKind) -> Command {
        match kind {
            MouseEventKind::Down(_) => if self.in_progress && !self.finished {
                Command::FinishStroke
            } else {
                Command::NoOp
            },
            _ => Command::NoOp,
        }
    }

    /// The state after a key. Escape ends the entry and keeps what was
    /// typed. Backspace takes the last character off the last line, or the
    /// last line away where it is empty. Enter begins a new line. A
    /// character goes to the end of the last line, and makes the first line
    /// where there is none. No other key changes anything, and none changes
    /// a text that was finished.
    pub open spec fn typed(self, code: KeyCode) -> Note {
        if self.finished {
            self
        } else {
            match code {
                KeyCode::Esc => Note { in_progress: false, finished: true, ..self },
                KeyCode::Backspace => if self.lines.len() == 0 {
                    self
                } else if self.lines.last().len() == 0 {
                    Note { lines: self.lines.drop_last(), ..self }
                } else {
                    Note {
                        lines: self.lines.update(self.lines.len() - 1, self.lines.last().drop_last()),
                        ..self
                    }
                },
                KeyCode::Enter => Note { lines: self.lines.push(Seq::empty()), ..self },
                KeyCode::Char(c) => if self.lines.len() == 0 {
                    Note { lines: seq![seq![c]], ..self }
                } else {
                    Note {
                        lines: self.lines.update(self.lines.len() - 1, self.lines.last().push(c)),
                        ..self
                    }
                },
                KeyCode::Other => self,
            }
        }
    }

    /// What the tool asks for after a key: to be finished where Escape ended
    /// the entry.
    pub open spec fn key_command(self, code: KeyCode) -> Command {
        if !self.finished && code == KeyCode::Esc {
            Command::FinishStroke
        } else {
            Command::NoOp
        }
    }

    /// Whether anything of the tool has a place yet: an anchor was set, the
    /// entry was ended, or something was typed.
    pub open spec fn placed(self) -> bool {
        self.in_progress || self.finished || self.lines.len() > 0
    }

    /// The rectangle from the anchor to one column past the longest line
    /// and one row past the last line, as `(min_x, max_x, min_y, max_y)`, as
    /// far as machine words count: none while nothing has a place.
    pub open spec fn bounding_box(self) -> Option<(int, int, int, int)> {
        if self.placed() {
            Some(
                (self.x, capped(self.x + longest(self.lines)), self.y, capped(self.y + self.lines.len())),
            )
        } else {
            None
        }
    }

    /// The mark of the cursor, `<`, behind the last line while text is being
    /// entered, at the anchor while there is no line.
    pub open spec fn cursor_marks(self) -> Seq<Mark> {
        if self.in_progress {
            if self.lines.len() > 0 {
                seq![glyph_mark(self.x + self.lines.last().len(), self.y + self.lines.len() - 1, '<')]
            } else {
                seq![glyph_mark(self.x, self.y, '<')]
            }
        } else {
            Seq::empty()
        }
    }

    /// The marks of the tool: its lines, top to bottom, each left to right,
    /// and then the cursor.
    pub open spec fn marks(self) -> Seq<Mark> {
        rows_marks(self.x, self.y, self.lines, self.lines.len() as int) + self.cursor_marks()
    }
}

/// Typed lines at an anchor cell.
pub struct Text {
    x: usize,
    y: usize,
    text: Vec<Vec<char>>,
    in_progress: bool,
    finished: bool,
}

impl View for Text {
    type V = Note;

    closed spec fn view(&self) -> Note {
        Note {
            x: self.x as int,
            y: self.y as int,
            lines: Seq::new(self.text@.len(), |j: int| self.text@[j]@),
            in_progress: self.in_progress,
            finished: self.finished,
        }
    }
}

impl Text {
    pub fn new() -> (tool: Text)
        ensures
            tool@ == Note::fresh(),
    {
        let tool = Text { x: 0, y: 0, text: Vec::new(), in_progress: false, finished: false };
        assert(tool@.lines =~= Seq::empty());
        tool
    }

    pub fn mouse_event(&mut self, x: isize, y: isize, kind: MouseEventKind) -> (command: Command)
        ensures
            final(self)@ == old(self)@.pressed(x as int, y as int, kind),
            command == old(self)@.press_command(kind),
    {
        if self.finished {
            return Command::NoOp;
        }
        match kind {
            MouseEventKind::Down(_) => {
                if !self.in_progress {
                    if let Some(p) = to_world(x, y) {
                        self.x = p.0;
                        self.y = p.1;
                        self.in_progress = true;
                    }
                    Command::NoOp
                } else {
                    self.in_progress = false;
                    self.finished = true;
                    Command::FinishStroke
                }
            },
            _ => Command::NoOp,
        }
    }

    pub fn key_event(&mut self, event: KeyEvent) -> (command: Command)
        ensures
            final(self)@ == old(self)@.typed(event.code),
            command == old(self)@.key_command(event.code),
    {
        if self.finished {
            return Command::NoOp;
        }
        match event.code {
            KeyCode::Esc => {
                self.in_progress = false;
                self.finished = true;
                Command::FinishStroke
            },
            KeyCode::Backspace => {
                let n = self.text.len();
                if n > 0 {
                    if self.text[n - 1].len() == 0 {
                        self.text.pop();
                        assert(self@.lines =~= old(self)@.lines.drop_last());
                    } else {
                        self.text[n - 1].pop();
                        assert(self@.lines =~= old(self)@.lines.update(
                            n - 1,
                            old(self)@.lines.last().drop_last(),
                        ));
                    }
                }
                Command::NoOp
            },
            KeyCode::Enter => {
                self.text.push(Vec::new());
                assert(self@.lines =~= old(self)@.lines.push(Seq::empty()));
                Command::NoOp
            },
            KeyCode::Char(c) => {
                let n = self.text.len();
                if n > 0 {
                    self.text[n - 1].push(c);
                    assert(self@.lines =~= old(self)@.lines.update(n - 1, old(self)@.lines.last().push(c)));
                } else {
                    let mut line: Vec<char> = Vec::new();
                    line.push(c);
                    self.text.push(line);
                    assert(self@.lines =~= seq![seq![c]]);
                }
                Command::NoOp
            },
            KeyCode::Other => Command::NoOp,
        }
    }

    pub fn complete(&self) -> (done: bool)
        ensures
            done == self@.finished,
    {
        self.finished
    }

    pub fn bounding_box(&self) -> (found: Option<(usize, usize, usize, usize)>)
        ensures
            same_box(found, self@.bounding_box()),
    {
        if !self.in_progress && !self.finished && self.text.len() == 0 {
            return None;
        }
        let mut longest_line: usize = 0;
        let mut j: usize = 0;
        while j < self.text.len()
            invariant
                j <= self.text@.len(),
                longest_line == longest(self@.lines.take(j as int)),
            decreases self.text@.len() - j,
        {
            proof {
                assert(self@.lines.take(j + 1).drop_last() =~= self@.lines.take(j as int));
            }
            if self.text[j].len() > longest_line {
                longest_line = self.text[j].len();
            }
            j = j + 1;
        }
        assert(self@.lines.take(j as int) =~= self@.lines);
        Some(
            (
                self.x,
                self.x.saturating_add(longest_line),
                self.y,
                self.y.saturating_add(self.text.len()),
            ),
        )
    }

    /// Writes `c` to the cell `(x + dx, y + dy)` if the clip lets the cell
    /// through.
    fn put(
        buffer: &mut Buffer,
        x: usize,
        dx: usize,
        y: usize,
        dy: usize,
        c: char,
        ascii_mode: bool,
        clip: Option<(usize, usize, usize, usize)>,
    )
        ensures
            final(buffer)@ == old(buffer)@.apply_all(
                within(seq![glyph_mark(x + dx, y + dy, c)], clip_window(clip)),
                ascii_mode,
            ),
    {
        let ghost mark = glyph_mark(x + dx, y + dy, c);
        proof {
            assert(Seq::<Mark>::empty().push(mark) =~= seq![mark]);
            lemma_within_push(buffer@, Seq::empty(), mark, clip_window(clip), ascii_mode);
            assert(within(Seq::<Mark>::empty(), clip_window(clip)) =~= Seq::<Mark>::empty());
        }
        match (x.checked_add(dx), y.checked_add(dy)) {
            (Some(cx), Some(cy)) => {
                if passes(cx, cy, clip) {
                    buffer.render_point(cx, cy, c);
                }
            },
            _ => {},
        }
    }

    fn draw(&self, buffer: &mut Buffer, ascii_mode: bool, clip: Option<(usize, usize, usize, usize)>)
        ensures
            final(buffer)@ == old(buffer)@.apply_all(within(self@.marks(), clip_window(clip)), ascii_mode),
    {
        let ghost note = self@;
        let ghost w = clip_window(clip);
        let ghost cv = old(buffer)@;
        let mut j: usize = 0;
        proof {
            assert(within(rows_marks(note.x, note.y, note.lines, 0), w) =~= Seq::<Mark>::empty());
        }
        while j < self.text.len()
            invariant
                j <= self.text@.len(),
                note == self@,
                w == clip_window(clip),
                cv == old(buffer)@,
                buffer@ == cv.apply_all(
                    within(rows_marks(note.x, note.y, note.lines, j as int), w),
                    ascii_mode,
                ),
            decreases self.text@.len() - j,
        {
            let ghost above = rows_marks(note.x, note.y, note.lines, j as int);
            let ghost row = row_marks(note.x, note.y + j, note.lines[j as int]);
            let mut i: usize = 0;
            proof {
                assert(above + row.take(0) =~= above);
            }
            while i < self.text[j].len()
                invariant
                    j < self.text@.len(),
                    i <= self.text@[j as int]@.len(),
                    note == self@,
                    w == clip_window(clip),
                    cv == old(buffer)@,
                    above == rows_marks(note.x, note.y, note.lines, j as int),
                    row == row_marks(note.x, note.y + j, note.lines[j as int]),
                    buffer@ == cv.apply_all(within(above + row.take(i as int), w), ascii_mode),
                decreases self.text@[j as int]@.len() - i,
            {
                let c = self.text[j][i];
                proof {
                    assert(row[i as int] == glyph_mark(self.x + i, self.y + j, c));
                    assert(above + row.take(i + 1) =~= (above + row.take(i as int)) + seq![row[i as int]]);
                    lemma_within_add(cv, above + row.take(i as int), seq![row[i as int]], w, ascii_mode);
                }
                Self::put(buffer, self.x, i, self.y, j, c, ascii_mode, clip);
                i = i + 1;
            }
            proof {
                assert(row.take(i as int) =~= row);
            }
            j = j + 1;
        }
        let ghost rows = rows_marks(note.x, note.y, note.lines, note.lines.len() as int);
        if self.in_progress {
            let n = self.text.len();
            proof {
                lemma_within_add(cv, rows, note.cursor_marks(), w, ascii_mode);
            }
            if n > 0 {
                Self::put(buffer, self.x, self.text[n - 1].len(), self.y, n - 1, '<', ascii_mode, clip);
            } else {
                Self::put(buffer, self.x, 0, self.y, 0, '<', ascii_mode, clip);
            }
        } else {
            assert(rows + note.cursor_marks() =~= rows);
        }
    }

    pub fn render(&self, buffer: &mut Buffer, ascii_mode: bool)
        ensures
            final(buffer)@ == old(buffer)@.apply_all(self@.marks(), ascii_mode),
    {
        self.draw(buffer, ascii_mode, None)
    }

    pub fn render_bounded(
        &self,
        min_x: usize,
        max_x: usize,
        min_y: usize,
        max_y: usize,
        buffer: &mut Buffer,
        ascii_mode: bool,
    )
        ensures
            final(buffer)@ == old(buffer)@.apply_all(
                clipped(self@.marks(), window(min_x, max_x, min_y, max_y)),
                ascii_mode,
            ),
    {
        self.draw(buffer, ascii_mode, Some((min_x, max_x, min_y, max_y)))
    }
}

} // verus!
