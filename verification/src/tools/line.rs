//! The line tool: a horizontal or vertical run of junction glyphs.

use vstd::prelude::*;
use crate::box_drawing::BoxFlags;
use crate::buffer::Buffer;
use crate::marks::{
    clip_window, clipped, lemma_within_push, passes, same_box, window, within, Mark, Paint,
};
use crate::tools::{finish_on_release, Command, Ends, KeyEvent, MouseEventKind, Segment};

verus! {

/// The directions of the `i`-th cell of a run of `n` cells, which goes to the
/// right where `horizontal` holds and downwards where it does not: the first
/// cell points forward to the next one, the last cell points back, and a
/// cell between them points both ways. A run of one cell points forward.
pub open spec fn run_flags(i: int, n: int, horizontal: bool) -> BoxFlags {
    let forward = i == 0 || i != n - 1;
    let back = i != 0;
    BoxFlags {
        up: !horizontal && back,
        down: !horizontal && forward,
        left: horizontal && back,
        right: horizontal && forward,
    }
}

/// Whether the line between the two ends of `s` is horizontal: the ends are
/// at least as far apart in columns as in rows.
pub open spec fn is_horizontal(s: Segment) -> bool {
    s.max_x() - s.min_x() >= s.max_y() - s.min_y()
}

/// The marks of the line between the two ends of `s`. A horizontal line
/// runs in the row of the start from the leftmost to the rightmost column of
/// the two ends. A vertical line runs in the column of the start from the
/// upper to the lower row.
pub open spec fn line_marks(s: Segment) -> Seq<Mark> {
    if !s.started {
        Seq::empty()
    } else {
        let horizontal = is_horizontal(s);
        let n = if horizontal { s.max_x() - s.min_x() + 1 } else { s.max_y() - s.min_y() + 1 };
        Seq::new(
            n as nat,
            |i: int|
                Mark {
                    x: if horizontal { s.min_x() + i } else { s.start.0 },
                    y: if horizontal { s.start.1 } else { s.min_y() + i },
                    paint: Paint::Join(run_flags(i, n, horizontal)),
                },
        )
    }
}

/// A horizontal or vertical line between two cells.
pub struct Line {
    ends: Ends,
}

impl View for Line {
    type V = Segment;

    closed spec fn view(&self) -> Segment {
        self.ends@
    }
}

impl Line {
    pub fn new() -> (tool: Line)
        ensures
            tool@ == Segment::fresh(),
    {
        Line { ends: Ends::new() }
    }

    pub fn mouse_event(&mut self, x: isize, y: isize, kind: MouseEventKind) -> (command: Command)
        ensures
            final(self)@ == old(self)@.after(x as int, y as int, kind),
            command == finish_on_release(kind),
    {
        self.ends.mouse_event(x, y, kind)
    }

    pub fn key_event(&mut self, event: KeyEvent) -> (command: Command)
        ensures
            final(self)@ == old(self)@,
            command == Command::NoOp,
    {
        Command::NoOp
    }

    pub fn bounding_box(&self) -> (found: Option<(usize, usize, usize, usize)>)
        ensures
            same_box(found, self@.bounding_box()),
    {
        self.ends.bounding_box()
    }

    pub fn complete(&self) -> (done: bool)
        ensures
            done == self@.is_complete(),
    {
        self.ends.complete()
    }

    fn draw(&self, buffer: &mut Buffer, ascii_mode: bool, clip: Option<(usize, usize, usize, usize)>)
        ensures
            final(buffer)@ == old(buffer)@.apply_all(within(line_marks(self@), clip_window(clip)), ascii_mode),
    {
        if !self.ends.started() {
            assert(within(line_marks(self@), clip_window(clip)) =~= Seq::<Mark>::empty());
            return ;
        }
        let (start_x, start_y) = self.ends.start();
        let (rect_min_x, rect_max_x, rect_min_y, rect_max_y) = self.ends.sides();
        let horizontal = rect_max_x - rect_min_x >= rect_max_y - rect_min_y;
        let last = if horizontal { rect_max_x - rect_min_x } else { rect_max_y - rect_min_y };
        let ghost marks = line_marks(self@);
        let ghost w = clip_window(clip);
        let mut i: usize = 0;
        proof {
            assert(within(marks.take(0), w) =~= Seq::<Mark>::empty());
        }
        loop
            invariant_except_break
                i <= last,
                buffer@ == old(buffer)@.apply_all(within(marks.take(i as int), w), ascii_mode),
            invariant
                marks == line_marks(self@),
                w == clip_window(clip),
                self@.started,
                horizontal == is_horizontal(self@),
                marks.len() == last + 1,
                rect_min_x == self@.min_x(),
                rect_min_y == self@.min_y(),
                rect_max_x == self@.max_x(),
                rect_max_y == self@.max_y(),
                start_x == self@.start.0,
                start_y == self@.start.1,
            ensures
                buffer@ == old(buffer)@.apply_all(within(marks, w), ascii_mode),
            decreases last - i,
        {
            let x = if horizontal { rect_min_x + i } else { start_x };
            let y = if horizontal { start_y } else { rect_min_y + i };
            let forward = i == 0 || i != last;
            let back = i != 0;
            let flags = BoxFlags {
                up: !horizontal && back,
                down: !horizontal && forward,
                left: horizontal && back,
                right: horizontal && forward,
            };
            proof {
                assert(marks[i as int] == Mark { x: x as int, y: y as int, paint: Paint::Join(flags) });
                assert(marks.take(i + 1) =~= marks.take(i as int).push(marks[i as int]));
                lemma_within_push(old(buffer)@, marks.take(i as int), marks[i as int], w, ascii_mode);
            }
            if passes(x, y, clip) {
                buffer.merge_point(x, y, flags, ascii_mode);
            }
            if i == last {
                assert(marks.take(i + 1) =~= marks);
                break ;
            }
            i = i + 1;
        }
    }

    pub fn render(&self, buffer: &mut Buffer, ascii_mode: bool)
        ensures
            final(buffer)@ == old(buffer)@.apply_all(line_marks(self@), ascii_mode),
    {
        self.draw(buffer, ascii_mode, None)
    }

    pub fn render_bounded(
        &self,
        min_x: usize,
        max_x: usize,
        min_y: usize,
        max_y: usize,
        buffer: &mut Buffer,
        ascii_mode: bool,
    )
        ensures
            final(buffer)@ == old(buffer)@.apply_all(
                clipped(line_marks(self@), window(min_x, max_x, min_y, max_y)),
                ascii_mode,
            ),
    {
        self.draw(buffer, ascii_mode, Some((min_x, max_x, min_y, max_y)))
    }
}

} // verus!
