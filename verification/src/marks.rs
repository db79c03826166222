//! Marks: what a tool leaves on a canvas, cell by cell, and what a window
//! lets through.

use vstd::prelude::*;
use crate::box_drawing::{merge, merged, BoxFlags};
use crate::buffer::{Buffer, Canvas};

verus! {

/// What a mark does to its cell: it overwrites the cell with a glyph, or it
/// merges directions into the junction that the cell shows.
pub enum Paint {
    Glyph(char),
    Join(BoxFlags),
}

/// One step of a rendering: a world cell and what is done to it.
pub struct Mark {
    pub x: int,
    pub y: int,
    pub paint: Paint,
}

/// A window on the world: the cells `(x, y)` with `min_x <= x < max_x` and
/// `min_y <= y < max_y`.
pub struct Window {
    pub min_x: int,
    pub max_x: int,
    pub min_y: int,
    pub max_y: int,
}

impl Window {
    /// Whether the cell `(x, y)` lies inside the window.
    pub open spec fn contains(self, x: int, y: int) -> bool {
        self.min_x <= x < self.max_x && self.min_y <= y < self.max_y
    }
}

/// The window that four machine words bound.
pub open spec fn window(min_x: usize, max_x: usize, min_y: usize, max_y: usize) -> Window {
    Window { min_x: min_x as int, max_x: max_x as int, min_y: min_y as int, max_y: max_y as int }
}

/// What a cell that shows `before` shows after `paint`.
pub open spec fn painted(before: char, paint: Paint, ascii_mode: bool) -> char {
    match paint {
        Paint::Glyph(c) => c,
        Paint::Join(flags) => merged(before, flags, ascii_mode),
    }
}

/// The marks of `marks` whose cells lie inside `w`, in their order.
pub open spec fn clipped(marks: Seq<Mark>, w: Window) -> Seq<Mark>
    decreases marks.len(),
{
    if marks.len() == 0 {
        marks
    } else if w.contains(marks.last().x, marks.last().y) {
        clipped(marks.drop_last(), w).push(marks.last())
    } else {
        clipped(marks.drop_last(), w)
    }
}

/// Whether one of `marks` is at the cell `(x, y)`.
pub open spec fn touches(marks: Seq<Mark>, x: int, y: int) -> bool {
    exists|i: int| 0 <= i < marks.len() && (#[trigger] marks[i]).x == x && marks[i].y == y
}

/// What the cell `(x, y)` shows after `marks`, when it showed `before` and
/// the canvas can store it: each mark at the cell paints over what the marks
/// before it left there.
pub open spec fn cell_after(before: char, marks: Seq<Mark>, x: int, y: int, ascii_mode: bool) -> char
    decreases marks.len(),
{
    if marks.len() == 0 {
        before
    } else if marks.last().x == x && marks.last().y == y {
        painted(cell_after(before, marks.drop_last(), x, y, ascii_mode), marks.last().paint, ascii_mode)
    } else {
        cell_after(before, marks.drop_last(), x, y, ascii_mode)
    }
}

/// The mark that writes `c` to the cell `(x, y)`.
pub open spec fn glyph_mark(x: int, y: int, c: char) -> Mark {
    Mark { x, y, paint: Paint::Glyph(c) }
}

/// A glyph mark at each of `points`, in their order.
pub open spec fn glyphs(points: Seq<(usize, usize)>, c: char) -> Seq<Mark> {
    Seq::new(points.len(), |i: int| glyph_mark(points[i].0 as int, points[i].1 as int, c))
}

/// `marks` as a rendering lets them through: all of them where nothing
/// clips, those inside the window where one does.
pub open spec fn within(marks: Seq<Mark>, clip: Option<Window>) -> Seq<Mark> {
    match clip {
        Some(w) => clipped(marks, w),
        None => marks,
    }
}

/// The window of an optional clip given as `(min_x, max_x, min_y, max_y)`.
pub open spec fn clip_window(clip: Option<(usize, usize, usize, usize)>) -> Option<Window> {
    match clip {
        Some(c) => Some(window(c.0, c.1, c.2, c.3)),
        None => None,
    }
}

/// A run of junction marks with the same directions: `n` cells from
/// `(x, y)` on, to the right where `horizontal` holds and downwards where it
/// does not.
pub open spec fn run_marks(horizontal: bool, x: int, y: int, n: int, flags: BoxFlags) -> Seq<Mark> {
    Seq::new(
        if n > 0 { n as nat } else { 0 },
        |i: int|
            Mark {
                x: if horizontal { x + i } else { x },
                y: if horizontal { y } else { y + i },
                paint: Paint::Join(flags),
            },
    )
}

impl Canvas {
    /// The canvas after one mark.
    pub open spec fn apply(self, mark: Mark, ascii_mode: bool) -> Canvas {
        self.put(mark.x, mark.y, painted(self.get(mark.x, mark.y), mark.paint, ascii_mode))
    }

    /// The canvas after `marks`, first to last.
    pub open spec fn apply_all(self, marks: Seq<Mark>, ascii_mode: bool) -> Canvas
        decreases marks.len(),
    {
        if marks.len() == 0 {
            self
        } else {
            self.apply_all(marks.drop_last(), ascii_mode).apply(marks.last(), ascii_mode)
        }
    }
}

/// A write changes the cell it is made to, if the canvas can store that
/// cell, and no other cell; the top-left cell stays where it is, and no row
/// gets shorter.
pub proof fn lemma_put(cv: Canvas, x: int, y: int, c: char)
    ensures
        cv.put(x, y, c).start_x == cv.start_x,
        cv.put(x, y, c).start_y == cv.start_y,
        cv.put(x, y, c).get(x, y) == if cv.holds(x, y) { c } else { cv.get(x, y) },
        forall|qx: int, qy: int| qx != x || qy != y ==> cv.put(x, y, c).get(qx, qy) == cv.get(qx, qy),
        forall|qx: int, qy: int| cv.put(x, y, c).holds(qx, qy) == cv.holds(qx, qy),
        cv.put(x, y, c).rows.len() >= cv.rows.len(),
        forall|i: int| 0 <= i < cv.rows.len() ==> cv.put(x, y, c).rows[i].len() >= cv.rows[i].len(),
{
}

/// Adding a mark at the end of a rendering applies it to what the marks
/// before it made of the canvas.
pub proof fn lemma_apply_all_push(cv: Canvas, marks: Seq<Mark>, mark: Mark, ascii_mode: bool)
    ensures
        cv.apply_all(marks.push(mark), ascii_mode) == cv.apply_all(marks, ascii_mode).apply(mark, ascii_mode),
{
    assert(marks.push(mark).drop_last() =~= marks);
}

/// Clipping goes mark by mark: a mark at the end is kept if and only if its
/// cell is inside the window.
pub proof fn lemma_clipped_push(marks: Seq<Mark>, mark: Mark, w: Window)
    ensures
        clipped(marks.push(mark), w) == if w.contains(mark.x, mark.y) {
            clipped(marks, w).push(mark)
        } else {
            clipped(marks, w)
        },
{
    assert(marks.push(mark).drop_last() =~= marks);
}

/// Rendering one run of marks after another is rendering the two in a row.
pub proof fn lemma_apply_all_add(cv: Canvas, first: Seq<Mark>, second: Seq<Mark>, ascii_mode: bool)
    ensures
        cv.apply_all(first + second, ascii_mode) == cv.apply_all(first, ascii_mode).apply_all(
            second,
            ascii_mode,
        ),
    decreases second.len(),
{
    if second.len() == 0 {
        assert(first + second =~= first);
    } else {
        lemma_apply_all_add(cv, first, second.drop_last(), ascii_mode);
        assert((first + second).drop_last() =~= first + second.drop_last());
    }
}

/// Clipping two runs of marks in a row is clipping each.
pub proof fn lemma_clipped_add(first: Seq<Mark>, second: Seq<Mark>, w: Window)
    ensures
        clipped(first + second, w) == clipped(first, w) + clipped(second, w),
    decreases second.len(),
{
    if second.len() == 0 {
        assert(first + second =~= first);
        assert(clipped(first, w) + clipped(second, w) =~= clipped(first, w));
    } else {
        lemma_clipped_add(first, second.drop_last(), w);
        assert((first + second).drop_last() =~= first + second.drop_last());
        if w.contains(second.last().x, second.last().y) {
            assert((clipped(first, w) + clipped(second.drop_last(), w)).push(second.last()) =~= clipped(
                first,
                w,
            ) + clipped(second.drop_last(), w).push(second.last()));
        }
    }
}

/// What a rendering lets through of two runs in a row is what it lets
/// through of each, and it renders them one after the other.
pub proof fn lemma_within_add(
    cv: Canvas,
    first: Seq<Mark>,
    second: Seq<Mark>,
    clip: Option<Window>,
    ascii_mode: bool,
)
    ensures
        within(first + second, clip) == within(first, clip) + within(second, clip),
        cv.apply_all(within(first + second, clip), ascii_mode) == cv.apply_all(
            within(first, clip),
            ascii_mode,
        ).apply_all(within(second, clip), ascii_mode),
{
    if let Some(w) = clip {
        lemma_clipped_add(first, second, w);
    }
    lemma_apply_all_add(cv, within(first, clip), within(second, clip), ascii_mode);
}

/// A mark at the end of a rendering is let through where nothing clips or
/// its cell is inside the window, and is then applied last.
pub proof fn lemma_within_push(cv: Canvas, marks: Seq<Mark>, mark: Mark, clip: Option<Window>, ascii_mode: bool)
    ensures
        cv.apply_all(within(marks.push(mark), clip), ascii_mode) == if clip matches Some(w)
            && !w.contains(mark.x, mark.y) {
            cv.apply_all(within(marks, clip), ascii_mode)
        } else {
            cv.apply_all(within(marks, clip), ascii_mode).apply(mark, ascii_mode)
        },
{
    if let Some(w) = clip {
        lemma_clipped_push(marks, mark, w);
    }
    lemma_apply_all_push(cv, within(marks, clip), mark, ascii_mode);
}

/// Marks work cell by cell. After a rendering the top-left cell is where it
/// was, the canvas can store the cells that it could store before, and a
/// cell that it can store shows what the marks at that cell made of what it
/// showed before, whatever was marked elsewhere. A cell that it cannot store
/// shows what it showed before.
pub proof fn lemma_apply_all_get(cv: Canvas, marks: Seq<Mark>, x: int, y: int, ascii_mode: bool)
    ensures
        cv.apply_all(marks, ascii_mode).start_x == cv.start_x,
        cv.apply_all(marks, ascii_mode).start_y == cv.start_y,
        cv.apply_all(marks, ascii_mode).holds(x, y) == cv.holds(x, y),
        cv.apply_all(marks, ascii_mode).get(x, y) == if cv.holds(x, y) {
            cell_after(cv.get(x, y), marks, x, y, ascii_mode)
        } else {
            cv.get(x, y)
        },
    decreases marks.len(),
{
    if marks.len() > 0 {
        let rest = marks.drop_last();
        let mark = marks.last();
        lemma_apply_all_get(cv, rest, x, y, ascii_mode);
        lemma_apply_all_get(cv, rest, mark.x, mark.y, ascii_mode);
        let mid = cv.apply_all(rest, ascii_mode);
        lemma_put(mid, mark.x, mark.y, painted(mid.get(mark.x, mark.y), mark.paint, ascii_mode));
    }
}

/// A cell that no mark is at shows after the rendering what it showed
/// before: a space, on a canvas that was empty.
pub proof fn lemma_untouched_cell(cv: Canvas, marks: Seq<Mark>, x: int, y: int, ascii_mode: bool)
    requires
        !touches(marks, x, y),
    ensures
        cv.apply_all(marks, ascii_mode).get(x, y) == cv.get(x, y),
        cv.rows.len() == 0 ==> cv.apply_all(marks, ascii_mode).get(x, y) == ' ',
    decreases marks.len(),
{
    lemma_apply_all_get(cv, marks, x, y, ascii_mode);
    lemma_untouched_keeps(cv.get(x, y), marks, x, y, ascii_mode);
}

/// Marks at other cells leave what a cell shows as it is.
pub proof fn lemma_untouched_keeps(before: char, marks: Seq<Mark>, x: int, y: int, ascii_mode: bool)
    requires
        !touches(marks, x, y),
    ensures
        cell_after(before, marks, x, y, ascii_mode) == before,
    decreases marks.len(),
{
    if marks.len() > 0 {
        let rest = marks.drop_last();
        assert(marks[marks.len() - 1] == marks.last());
        assert forall|i: int| 0 <= i < rest.len() implies !((#[trigger] rest[i]).x == x && rest[i].y
            == y) by {
            assert(rest[i] == marks[i]);
        }
        lemma_untouched_keeps(before, rest, x, y, ascii_mode);
    }
}

/// The last write wins: where the `i`-th mark writes a glyph to a cell that
/// the canvas can store, and no later mark is at that cell, the cell shows
/// that glyph after the rendering.
pub proof fn lemma_last_write_wins(cv: Canvas, marks: Seq<Mark>, i: int, c: char, ascii_mode: bool)
    requires
        0 <= i < marks.len(),
        marks[i].paint == Paint::Glyph(c),
        cv.holds(marks[i].x, marks[i].y),
        forall|j: int| i < j < marks.len() ==> !((#[trigger] marks[j]).x == marks[i].x && marks[j].y == marks[i].y),
    ensures
        cv.apply_all(marks, ascii_mode).get(marks[i].x, marks[i].y) == c,
{
    let x = marks[i].x;
    let y = marks[i].y;
    lemma_apply_all_get(cv, marks, x, y, ascii_mode);
    lemma_last_glyph(cv.get(x, y), marks, i, c, ascii_mode);
}

/// What a cell shows after the last glyph written to it is that glyph.
pub proof fn lemma_last_glyph(before: char, marks: Seq<Mark>, i: int, c: char, ascii_mode: bool)
    requires
        0 <= i < marks.len(),
        marks[i].paint == Paint::Glyph(c),
        forall|j: int| i < j < marks.len() ==> !((#[trigger] marks[j]).x == marks[i].x && marks[j].y == marks[i].y),
    ensures
        cell_after(before, marks, marks[i].x, marks[i].y, ascii_mode) == c,
    decreases marks.len(),
{
    let rest = marks.drop_last();
    if i < marks.len() - 1 {
        assert(marks[marks.len() - 1] == marks.last());
        assert(rest[i] == marks[i]);
        assert forall|j: int| i < j < rest.len() implies !((#[trigger] rest[j]).x == rest[i].x && rest[j].y
            == rest[i].y) by {
            assert(rest[j] == marks[j]);
        }
        lemma_last_glyph(before, rest, i, c, ascii_mode);
    }
}

/// A clipped rendering marks the cells that the whole rendering marks and
/// that lie inside the window, and no others.
pub proof fn lemma_clipped_touches(marks: Seq<Mark>, w: Window, x: int, y: int)
    ensures
        touches(clipped(marks, w), x, y) <==> touches(marks, x, y) && w.contains(x, y),
    decreases marks.len(),
{
    if marks.len() > 0 {
        let rest = marks.drop_last();
        let last = marks.last();
        lemma_clipped_touches(rest, w, x, y);
        let kept = clipped(rest, w);
        if touches(clipped(marks, w), x, y) {
            let i = choose|i: int| 0 <= i < clipped(marks, w).len() && (#[trigger] clipped(marks, w)[i]).x == x && clipped(marks, w)[i].y == y;
            if w.contains(last.x, last.y) && i == kept.len() {
                assert(marks[marks.len() - 1].x == x && marks[marks.len() - 1].y == y);
            } else {
                assert(kept[i].x == x && kept[i].y == y);
                let k = choose|k: int| 0 <= k < rest.len() && (#[trigger] rest[k]).x == x && rest[k].y == y;
                assert(marks[k] == rest[k]);
            }
        }
        if touches(marks, x, y) && w.contains(x, y) {
            let k = choose|k: int| 0 <= k < marks.len() && (#[trigger] marks[k]).x == x && marks[k].y == y;
            if k == marks.len() - 1 {
                assert(clipped(marks, w)[kept.len() as int] == last);
            } else {
                assert(rest[k] == marks[k]);
                let i = choose|i: int| 0 <= i < kept.len() && (#[trigger] kept[i]).x == x && kept[i].y == y;
                assert(clipped(marks, w)[i] == kept[i]);
            }
        }
    }
}

/// Inside the window a clipped rendering does to a cell what the whole
/// rendering does to it.
pub proof fn lemma_clipped_cell_after(
    before: char,
    marks: Seq<Mark>,
    w: Window,
    x: int,
    y: int,
    ascii_mode: bool,
)
    requires
        w.contains(x, y),
    ensures
        cell_after(before, clipped(marks, w), x, y, ascii_mode) == cell_after(before, marks, x, y, ascii_mode),
    decreases marks.len(),
{
    if marks.len() > 0 {
        let rest = marks.drop_last();
        let last = marks.last();
        lemma_clipped_cell_after(before, rest, w, x, y, ascii_mode);
        if w.contains(last.x, last.y) {
            assert(clipped(marks, w).drop_last() =~= clipped(rest, w));
        }
    }
}

/// What a window shows is what the whole picture has there: where two
/// canvases show the same in a cell inside the window and both can store the
/// cell, the cell shows the same on the one after the clipped rendering as on
/// the other after the whole rendering.
pub proof fn lemma_clipped_shows_same(
    view: Canvas,
    whole: Canvas,
    marks: Seq<Mark>,
    w: Window,
    x: int,
    y: int,
    ascii_mode: bool,
)
    requires
        w.contains(x, y),
        view.holds(x, y),
        whole.holds(x, y),
        view.get(x, y) == whole.get(x, y),
    ensures
        view.apply_all(clipped(marks, w), ascii_mode).get(x, y) == whole.apply_all(marks, ascii_mode).get(x, y),
{
    lemma_apply_all_get(view, clipped(marks, w), x, y, ascii_mode);
    lemma_apply_all_get(whole, marks, x, y, ascii_mode);
    lemma_clipped_cell_after(view.get(x, y), marks, w, x, y, ascii_mode);
}

impl Buffer {
    /// Merges `flags` into the junction at the world cell `(x, y)`.
    pub fn merge_point(&mut self, x: usize, y: usize, flags: BoxFlags, ascii_mode: bool)
        ensures
            final(self)@ == old(self)@.apply(
                Mark { x: x as int, y: y as int, paint: Paint::Join(flags) },
                ascii_mode,
            ),
    {
        let c = merge(self.get_point(x, y), flags, ascii_mode);
        self.render_point(x, y, c);
    }
}

/// Whether the cell `(x, y)` lies inside the window.
pub fn inside(x: usize, y: usize, min_x: usize, max_x: usize, min_y: usize, max_y: usize) -> (b: bool)
    ensures
        b == window(min_x, max_x, min_y, max_y).contains(x as int, y as int),
{
    (min_x <= x && x < max_x) && (min_y <= y && y < max_y)
}

/// Whether a rendering with this clip lets the cell `(x, y)` through.
pub fn passes(x: usize, y: usize, clip: Option<(usize, usize, usize, usize)>) -> (b: bool)
    ensures
        b == !(clip_window(clip) matches Some(w) && !w.contains(x as int, y as int)),
{
    match clip {
        Some((min_x, max_x, min_y, max_y)) => inside(x, y, min_x, max_x, min_y, max_y),
        None => true,
    }
}

/// Merges `flags` into the junction at `(x, y)` if the clip lets the cell
/// through.
pub fn join(
    buffer: &mut Buffer,
    x: usize,
    y: usize,
    flags: BoxFlags,
    ascii_mode: bool,
    clip: Option<(usize, usize, usize, usize)>,
)
    ensures
        final(buffer)@ == old(buffer)@.apply_all(
            within(seq![Mark { x: x as int, y: y as int, paint: Paint::Join(flags) }], clip_window(clip)),
            ascii_mode,
        ),
{
    let ghost mark = Mark { x: x as int, y: y as int, paint: Paint::Join(flags) };
    proof {
        assert(Seq::<Mark>::empty().push(mark) =~= seq![mark]);
        lemma_within_push(buffer@, Seq::empty(), mark, clip_window(clip), ascii_mode);
        assert(within(Seq::<Mark>::empty(), clip_window(clip)) =~= Seq::<Mark>::empty());
    }
    if passes(x, y, clip) {
        buffer.merge_point(x, y, flags, ascii_mode);
    }
}

/// Merges `flags` into the junctions of a run of `n` cells from `(x, y)` on,
/// to the right or downwards, as far as the clip lets them through.
pub fn join_run(
    buffer: &mut Buffer,
    horizontal: bool,
    x: usize,
    y: usize,
    n: usize,
    flags: BoxFlags,
    ascii_mode: bool,
    clip: Option<(usize, usize, usize, usize)>,
)
    requires
        horizontal ==> x + n <= usize::MAX,
        !horizontal ==> y + n <= usize::MAX,
    ensures
        final(buffer)@ == old(buffer)@.apply_all(
            within(run_marks(horizontal, x as int, y as int, n as int, flags), clip_window(clip)),
            ascii_mode,
        ),
{
    let ghost marks = run_marks(horizontal, x as int, y as int, n as int, flags);
    let ghost w = clip_window(clip);
    let mut i: usize = 0;
    proof {
        assert(within(marks.take(0), w) =~= Seq::<Mark>::empty());
    }
    while i < n
        invariant
            i <= n,
            horizontal ==> x + n <= usize::MAX,
            !horizontal ==> y + n <= usize::MAX,
            marks == run_marks(horizontal, x as int, y as int, n as int, flags),
            w == clip_window(clip),
            buffer@ == old(buffer)@.apply_all(within(marks.take(i as int), w), ascii_mode),
        decreases n - i,
    {
        let cx = if horizontal { x + i } else { x };
        let cy = if horizontal { y } else { y + i };
        proof {
            assert(marks.take(i + 1) =~= marks.take(i as int).push(marks[i as int]));
            lemma_within_push(old(buffer)@, marks.take(i as int), marks[i as int], w, ascii_mode);
        }
        if passes(cx, cy, clip) {
            buffer.merge_point(cx, cy, flags, ascii_mode);
        }
        i = i + 1;
    }
    assert(marks.take(i as int) =~= marks);
}

/// Writes `c` to those of `points` that the clip lets through, in their
/// order.
fn stroke_within(
    buffer: &mut Buffer,
    points: &Vec<(usize, usize)>,
    c: char,
    clip: Option<(usize, usize, usize, usize)>,
)
    ensures
        forall|ascii_mode: bool|
            final(buffer)@ == #[trigger] old(buffer)@.apply_all(
                within(glyphs(points@, c), clip_window(clip)),
                ascii_mode,
            ),
{
    let ghost marks = glyphs(points@, c);
    let ghost w = clip_window(clip);
    let mut i: usize = 0;
    proof {
        assert(within(marks.take(0), w) =~= Seq::<Mark>::empty());
    }
    while i < points.len()
        invariant
            i <= points@.len(),
            marks == glyphs(points@, c),
            w == clip_window(clip),
            forall|ascii_mode: bool|
                buffer@ == #[trigger] old(buffer)@.apply_all(within(marks.take(i as int), w), ascii_mode),
        decreases points@.len() - i,
    {
        let (x, y) = points[i];
        let ghost before = buffer@;
        if passes(x, y, clip) {
            buffer.render_point(x, y, c);
        }
        proof {
            assert(marks.take(i + 1) =~= marks.take(i as int).push(marks[i as int]));
            assert forall|ascii_mode: bool|
                buffer@ == #[trigger] old(buffer)@.apply_all(within(marks.take(i + 1), w), ascii_mode) by {
                assert(before == old(buffer)@.apply_all(within(marks.take(i as int), w), ascii_mode));
                lemma_within_push(old(buffer)@, marks.take(i as int), marks[i as int], w, ascii_mode);
            }
        }
        i = i + 1;
    }
    assert(marks.take(i as int) =~= marks);
}

/// Writes `c` to each of `points`, in their order.
pub fn stroke(buffer: &mut Buffer, points: &Vec<(usize, usize)>, c: char)
    ensures
        forall|ascii_mode: bool|
            final(buffer)@ == #[trigger] old(buffer)@.apply_all(glyphs(points@, c), ascii_mode),
{
    stroke_within(buffer, points, c, None);
    proof {
        assert forall|ascii_mode: bool|
            buffer@ == #[trigger] old(buffer)@.apply_all(glyphs(points@, c), ascii_mode) by {
            assert(buffer@ == old(buffer)@.apply_all(within(glyphs(points@, c), clip_window(None)), ascii_mode));
        }
    }
}

/// Writes `c` to those of `points` that lie inside the window, in their
/// order.
pub fn stroke_bounded(
    buffer: &mut Buffer,
    points: &Vec<(usize, usize)>,
    c: char,
    min_x: usize,
    max_x: usize,
    min_y: usize,
    max_y: usize,
)
    ensures
        forall|ascii_mode: bool|
            final(buffer)@ == #[trigger] old(buffer)@.apply_all(
                clipped(glyphs(points@, c), window(min_x, max_x, min_y, max_y)),
                ascii_mode,
            ),
{
    let clip = Some((min_x, max_x, min_y, max_y));
    stroke_within(buffer, points, c, clip);
    proof {
        assert forall|ascii_mode: bool|
            buffer@ == #[trigger] old(buffer)@.apply_all(
                clipped(glyphs(points@, c), window(min_x, max_x, min_y, max_y)),
                ascii_mode,
            ) by {
            assert(buffer@ == old(buffer)@.apply_all(within(glyphs(points@, c), clip_window(clip)), ascii_mode));
        }
    }
}

/// The cells at which `marks` are, in their order.
pub open spec fn spots(marks: Seq<Mark>) -> Seq<(int, int)> {
    Seq::new(marks.len(), |i: int| (marks[i].x, marks[i].y))
}

/// `points` as cells of the world.
pub open spec fn cells(points: Seq<(usize, usize)>) -> Seq<(int, int)> {
    Seq::new(points.len(), |i: int| (points[i].0 as int, points[i].1 as int))
}

/// The rectangle `frame`, as `(min_x, max_x, min_y, max_y)`, stretched
/// until it holds `cell`.
pub open spec fn stretched(frame: (int, int, int, int), cell: (int, int)) -> (int, int, int, int) {
    (
        if cell.0 < frame.0 { cell.0 } else { frame.0 },
        if cell.0 > frame.1 { cell.0 } else { frame.1 },
        if cell.1 < frame.2 { cell.1 } else { frame.2 },
        if cell.1 > frame.3 { cell.1 } else { frame.3 },
    )
}

/// The smallest rectangle around `cells`, as `(min_x, max_x, min_y,
/// max_y)`: none where there are no cells.
pub open spec fn frame_of(cells: Seq<(int, int)>) -> Option<(int, int, int, int)>
    decreases cells.len(),
{
    if cells.len() == 0 {
        None
    } else {
        match frame_of(cells.drop_last()) {
            None => Some((cells.last().0, cells.last().0, cells.last().1, cells.last().1)),
            Some(frame) => Some(stretched(frame, cells.last())),
        }
    }
}

/// Whether `found` is the rectangle `wanted`, or both are none.
pub open spec fn same_box(
    found: Option<(usize, usize, usize, usize)>,
    wanted: Option<(int, int, int, int)>,
) -> bool {
    match (found, wanted) {
        (Some(f), Some(w)) => f.0 == w.0 && f.1 == w.1 && f.2 == w.2 && f.3 == w.3,
        (None, None) => true,
        _ => false,
    }
}

/// The frame of some cells holds each of them, and each of its four sides
/// passes through one of them: no smaller rectangle holds them all.
pub proof fn lemma_frame_of(cells: Seq<(int, int)>)
    ensures
        frame_of(cells) is None <==> cells.len() == 0,
        frame_of(cells) matches Some(b) ==> {
            &&& forall|i: int|
                0 <= i < cells.len() ==> b.0 <= (#[trigger] cells[i]).0 <= b.1 && b.2 <= cells[i].1
                    <= b.3
            &&& exists|i: int| 0 <= i < cells.len() && (#[trigger] cells[i]).0 == b.0
            &&& exists|i: int| 0 <= i < cells.len() && (#[trigger] cells[i]).0 == b.1
            &&& exists|i: int| 0 <= i < cells.len() && (#[trigger] cells[i]).1 == b.2
            &&& exists|i: int| 0 <= i < cells.len() && (#[trigger] cells[i]).1 == b.3
        },
    decreases cells.len(),
{
    if cells.len() > 0 {
        let rest = cells.drop_last();
        let n = cells.len() - 1;
        lemma_frame_of(rest);
        let b = frame_of(cells)->0;
        match frame_of(rest) {
            None => {
                assert(cells[n].0 == b.0 && cells[n].1 == b.2);
            },
            Some(r) => {
                assert forall|i: int| 0 <= i < cells.len() implies b.0 <= (#[trigger] cells[i]).0 <= b.1
                    && b.2 <= cells[i].1 <= b.3 by {
                    if i < n {
                        assert(rest[i] == cells[i]);
                    }
                }
                let i0 = choose|i: int| 0 <= i < rest.len() && (#[trigger] rest[i]).0 == r.0;
                let i1 = choose|i: int| 0 <= i < rest.len() && (#[trigger] rest[i]).0 == r.1;
                let i2 = choose|i: int| 0 <= i < rest.len() && (#[trigger] rest[i]).1 == r.2;
                let i3 = choose|i: int| 0 <= i < rest.len() && (#[trigger] rest[i]).1 == r.3;
                assert(cells[i0] == rest[i0] && cells[i1] == rest[i1] && cells[i2] == rest[i2]
                    && cells[i3] == rest[i3]);
                assert(cells[if cells[n].0 < r.0 { n } else { i0 }].0 == b.0);
                assert(cells[if cells[n].0 > r.1 { n } else { i1 }].0 == b.1);
                assert(cells[if cells[n].1 < r.2 { n } else { i2 }].1 == b.2);
                assert(cells[if cells[n].1 > r.3 { n } else { i3 }].1 == b.3);
            },
        }
    }
}

/// The smallest rectangle around `points`.
pub fn frame(points: &Vec<(usize, usize)>) -> (found: Option<(usize, usize, usize, usize)>)
    ensures
        same_box(found, frame_of(cells(points@))),
{
    let ghost at = cells(points@);
    let mut found: Option<(usize, usize, usize, usize)> = None;
    let mut i: usize = 0;
    while i < points.len()
        invariant
            i <= points@.len(),
            at == cells(points@),
            same_box(found, frame_of(at.take(i as int))),
        decreases points@.len() - i,
    {
        let (x, y) = points[i];
        proof {
            assert(at.take(i + 1).drop_last() =~= at.take(i as int));
            assert(at.take(i + 1).last() == (x as int, y as int));
        }
        found = match found {
            None => Some((x, x, y, y)),
            Some(b) => Some(
                (
                    if x < b.0 { x } else { b.0 },
                    if x > b.1 { x } else { b.1 },
                    if y < b.2 { y } else { b.2 },
                    if y > b.3 { y } else { b.3 },
                ),
            ),
        };
        i = i + 1;
    }
    assert(at.take(i as int) =~= at);
    found
}

} // verus!
