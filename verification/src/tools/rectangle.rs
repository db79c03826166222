//! The rectangle tool: four edges of junction glyphs and four corners.

use vstd::prelude::*;
use crate::box_drawing::BoxFlags;
use crate::buffer::Buffer;
use crate::marks::{
    clip_window, clipped, join, join_run, lemma_within_add, run_marks, same_box, window, within,
    Mark, Paint,
};
use crate::tools::{finish_on_release, Command, Ends, KeyEvent, MouseEventKind, Segment};

verus! {

/// The four corner marks of the rectangle around the two ends of `s`: top
/// left, top right, bottom left, bottom right. Each joins the two edges that
/// meet in it.
pub open spec fn corner_marks(s: Segment) -> Seq<Mark> {
    seq![
        Mark {
            x: s.min_x(),
            y: s.min_y(),
            paint: Paint::Join(BoxFlags { up: false, down: true, left: false, right: true }),
        },
        Mark {
            x: s.max_x(),
            y: s.min_y(),
            paint: Paint::Join(BoxFlags { up: false, down: true, left: true, right: false }),
        },
        Mark {
            x: s.min_x(),
            y: s.max_y(),
            paint: Paint::Join(BoxFlags { up: true, down: false, left: false, right: true }),
        },
        Mark {
            x: s.max_x(),
            y: s.max_y(),
            paint: Paint::Join(BoxFlags { up: true, down: false, left: true, right: false }),
        },
    ]
}

/// The marks of the rectangle around the two ends of `s`: the top edge, the
/// bottom edge, the left edge and the right edge, each without its two
/// corner cells, and then the corners, so that every corner is marked once as
/// a corner.
pub open spec fn rectangle_marks(s: Segment) -> Seq<Mark> {
    if !s.started {
        Seq::empty()
    } else {
        let across = BoxFlags { up: false, down: false, left: true, right: true };
        let along = BoxFlags { up: true, down: true, left: false, right: false };
        let wide = s.max_x() - s.min_x() - 1;
        let high = s.max_y() - s.min_y() - 1;
        run_marks(true, s.min_x() + 1, s.min_y(), wide, across) + run_marks(
            true,
            s.min_x() + 1,
            s.max_y(),
            wide,
            across,
        ) + run_marks(false, s.min_x(), s.min_y() + 1, high, along) + run_marks(
            false,
            s.max_x(),
            s.min_y() + 1,
            high,
            along,
        ) + corner_marks(s)
    }
}

/// The outline of the rectangle around two cells.
pub struct Rectangle {
    ends: Ends,
}

impl View for Rectangle {
    type V = Segment;

    closed spec fn view(&self) -> Segment {
        self.ends@
    }
}

impl Rectangle {
    pub fn new() -> (tool: Rectangle)
        ensures
            tool@ == Segment::fresh(),
    {
        Rectangle { ends: Ends::new() }
    }

    pub fn mouse_event(&mut self, x: isize, y: isize, kind: MouseEventKind) -> (command: Command)
        ensures
            final(self)@ == old(self)@.after(x as int, y as int, kind),
            command == finish_on_release(kind),
    {
        self.ends.mouse_event(x, y, kind)
    }

    pub fn key_event(&mut self, event: KeyEvent) -> (command: Command)
        ensures
            final(self)@ == old(self)@,
            command == Command::NoOp,
    {
        Command::NoOp
    }

    pub fn bounding_box(&self) -> (found: Option<(usize, usize, usize, usize)>)
        ensures
            same_box(found, self@.bounding_box()),
    {
        self.ends.bounding_box()
    }

    pub fn complete(&self) -> (done: bool)
        ensures
            done == self@.is_complete(),
    {
        self.ends.complete()
    }

    fn draw(&self, buffer: &mut Buffer, ascii_mode: bool, clip: Option<(usize, usize, usize, usize)>)
        ensures
            final(buffer)@ == old(buffer)@.apply_all(
                within(rectangle_marks(self@), clip_window(clip)),
                ascii_mode,
            ),
    {
        if !self.ends.started() {
            assert(within(rectangle_marks(self@), clip_window(clip)) =~= Seq::<Mark>::empty());
            return ;
        }
        let (rect_min_x, rect_max_x, rect_min_y, rect_max_y) = self.ends.sides();
        let across = BoxFlags { up: false, down: false, left: true, right: true };
        let along = BoxFlags { up: true, down: true, left: false, right: false };
        let ghost s = self@;
        let ghost w = clip_window(clip);
        let ghost wide = s.max_x() - s.min_x() - 1;
        let ghost high = s.max_y() - s.min_y() - 1;
        let ghost top = run_marks(true, s.min_x() + 1, s.min_y(), wide, across);
        let ghost bottom = run_marks(true, s.min_x() + 1, s.max_y(), wide, across);
        let ghost left = run_marks(false, s.min_x(), s.min_y() + 1, high, along);
        let ghost right = run_marks(false, s.max_x(), s.min_y() + 1, high, along);
        let ghost corners = corner_marks(s);
        let ghost c0 = corners[0];
        let ghost c1 = corners[1];
        let ghost c2 = corners[2];
        let ghost c3 = corners[3];
        if rect_min_x < rect_max_x {
            let n = rect_max_x - rect_min_x - 1;
            join_run(buffer, true, rect_min_x + 1, rect_min_y, n, across, ascii_mode, clip);
            join_run(buffer, true, rect_min_x + 1, rect_max_y, n, across, ascii_mode, clip);
        } else {
            assert(within(top, w) =~= Seq::<Mark>::empty());
            assert(within(bottom, w) =~= Seq::<Mark>::empty());
        }
        assert(buffer@ == old(buffer)@.apply_all(within(top, w), ascii_mode).apply_all(
            within(bottom, w),
            ascii_mode,
        ));
        if rect_min_y < rect_max_y {
            let n = rect_max_y - rect_min_y - 1;
            join_run(buffer, false, rect_min_x, rect_min_y + 1, n, along, ascii_mode, clip);
            join_run(buffer, false, rect_max_x, rect_min_y + 1, n, along, ascii_mode, clip);
        } else {
            assert(within(left, w) =~= Seq::<Mark>::empty());
            assert(within(right, w) =~= Seq::<Mark>::empty());
        }
        join(
            buffer,
            rect_min_x,
            rect_min_y,
            BoxFlags { up: false, down: true, left: false, right: true },
            ascii_mode,
            clip,
        );
        join(
            buffer,
            rect_max_x,
            rect_min_y,
            BoxFlags { up: false, down: true, left: true, right: false },
            ascii_mode,
            clip,
        );
        join(
            buffer,
            rect_min_x,
            rect_max_y,
            BoxFlags { up: true, down: false, left: false, right: true },
            ascii_mode,
            clip,
        );
        join(
            buffer,
            rect_max_x,
            rect_max_y,
            BoxFlags { up: true, down: false, left: true, right: false },
            ascii_mode,
            clip,
        );
        proof {
            let cv = old(buffer)@;
            assert(corners =~= seq![c0] + seq![c1] + seq![c2] + seq![c3]);
            let e1 = top + bottom;
            let e2 = e1 + left;
            let e3 = e2 + right;
            let k1 = e3 + seq![c0];
            let k2 = k1 + seq![c1];
            let k3 = k2 + seq![c2];
            let k4 = k3 + seq![c3];
            assert(rectangle_marks(s) =~= k4);
            lemma_within_add(cv, top, bottom, w, ascii_mode);
            lemma_within_add(cv, e1, left, w, ascii_mode);
            lemma_within_add(cv, e2, right, w, ascii_mode);
            lemma_within_add(cv, e3, seq![c0], w, ascii_mode);
            lemma_within_add(cv, k1, seq![c1], w, ascii_mode);
            lemma_within_add(cv, k2, seq![c2], w, ascii_mode);
            lemma_within_add(cv, k3, seq![c3], w, ascii_mode);
        }
    }

    pub fn render(&self, buffer: &mut Buffer, ascii_mode: bool)
        ensures
            final(buffer)@ == old(buffer)@.apply_all(rectangle_marks(self@), ascii_mode),
    {
        self.draw(buffer, ascii_mode, None)
    }

    pub fn render_bounded(
        &self,
        min_x: usize,
        max_x: usize,
        min_y: usize,
        max_y: usize,
        buffer: &mut Buffer,
        ascii_mode: bool,
    )
        ensures
            final(buffer)@ == old(buffer)@.apply_all(
                clipped(rectangle_marks(self@), window(min_x, max_x, min_y, max_y)),
                ascii_mode,
            ),
    {
        self.draw(buffer, ascii_mode, Some((min_x, max_x, min_y, max_y)))
    }
}

} // verus!
