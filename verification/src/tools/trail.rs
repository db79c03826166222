//! Trails: the cells that the pointer passed while a button was held, with
//! the gaps between two reports filled in.

use vstd::prelude::*;
use crate::bresenham::{bresenham, bresenham_line};
use crate::tools::{finish_on_release, is_world, to_world, Command, MouseEventKind};

verus! {

/// `s` without its first item.
pub open spec fn tail<A>(s: Seq<A>) -> Seq<A> {
    if s.len() == 0 {
        s
    } else {
        s.subrange(1, s.len() as int)
    }
}

/// The state of a tool that records where the pointer went: whether it has
/// recorded a cell, the cells, and whether a drag or a second press has
/// lengthened the trail.
pub struct Trail {
    pub started: bool,
    pub points: Seq<(usize, usize)>,
    pub complete: bool,
}

impl Trail {
    /// The state before the first event.
    pub open spec fn fresh() -> Trail {
        Trail { started: false, points: Seq::empty(), complete: false }
    }

    /// The cells of a trail once the pointer has reached `cell`. The first
    /// cell is recorded as it is. A later one is reached from the last cell
    /// recorded, along the straight run between the two, whose first cell is
    /// on the trail already. Where the last cell is no world cell no run
    /// leads on from it, and the new cell alone is recorded.
    pub open spec fn reach(points: Seq<(usize, usize)>, cell: (usize, usize)) -> Seq<(usize, usize)> {
        if points.len() == 0 {
            seq![cell]
        } else if is_world(points.last().0 as int) && is_world(points.last().1 as int) {
            points + tail(bresenham_line(points.last(), cell))
        } else {
            points.push(cell)
        }
    }

    /// The state after a pointer event at `(x, y)`, of whatever kind: the
    /// trail reaches the cell, and is started by its first cell. A drag, and
    /// a press on a trail that was started, completes the tool. An event at
    /// no world cell changes nothing.
    pub open spec fn after(self, x: int, y: int, kind: MouseEventKind) -> Trail {
        if is_world(x) && is_world(y) {
            Trail {
                started: self.started || self.points.len() == 0,
                points: Self::reach(self.points, (x as usize, y as usize)),
                complete: match kind {
                    MouseEventKind::Drag(_) => true,
                    MouseEventKind::Down(_) => self.complete || self.started,
                    _ => self.complete,
                },
            }
        } else {
            self
        }
    }

    /// Whether the tool holds a stroke that is worth keeping: it was
    /// started, and a drag or a second press lengthened its trail.
    pub open spec fn is_complete(self) -> bool {
        self.started && self.complete
    }
}

/// Appends `cells` without the first of them to `points`.
pub fn append_tail(points: &mut Vec<(usize, usize)>, cells: &Vec<(usize, usize)>)
    ensures
        final(points)@ == old(points)@ + tail(cells@),
{
    let mut i: usize = 1;
    proof {
        assert(old(points)@ + Seq::<(usize, usize)>::empty() =~= old(points)@);
    }
    while i < cells.len()
        invariant
            1 <= i,
            i <= cells@.len() || cells@.len() == 0,
            cells@.len() > 0 ==> points@ == old(points)@ + cells@.subrange(1, i as int),
            cells@.len() == 0 ==> points@ == old(points)@,
        decreases cells@.len() - i,
    {
        proof {
            assert(cells@.subrange(1, i + 1) =~= cells@.subrange(1, i as int).push(cells@[i as int]));
            assert((old(points)@ + cells@.subrange(1, i as int)).push(cells@[i as int]) =~= old(points)@
                + cells@.subrange(1, i + 1));
        }
        points.push(cells[i]);
        i = i + 1;
    }
    proof {
        if cells@.len() > 0 {
            assert(cells@.subrange(1, i as int) =~= tail(cells@));
        } else {
            assert(old(points)@ + tail(cells@) =~= old(points)@);
        }
    }
}

/// Lets the trail `points` reach the world cell `cell`.
pub fn reach(points: &mut Vec<(usize, usize)>, cell: (usize, usize))
    requires
        is_world(cell.0 as int),
        is_world(cell.1 as int),
    ensures
        final(points)@ == Trail::reach(old(points)@, cell),
{
    let n = points.len();
    if n == 0 {
        points.push(cell);
        assert(points@ =~= seq![cell]);
    } else {
        let last = points[n - 1];
        if last.0 < isize::MAX as usize && last.1 < isize::MAX as usize {
            let run = bresenham(last, cell);
            append_tail(points, &run);
        } else {
            points.push(cell);
        }
    }
}

/// Handles a pointer event for a trail: records the cell, and asks for the
/// stroke to be finished when the button is released.
pub fn trail_event(
    started: &mut bool,
    points: &mut Vec<(usize, usize)>,
    complete: &mut bool,
    x: isize,
    y: isize,
    kind: MouseEventKind,
) -> (command: Command)
    ensures
        (Trail { started: *final(started), points: final(points)@, complete: *final(complete) }) == (Trail {
            started: *old(started),
            points: old(points)@,
            complete: *old(complete),
        }).after(x as int, y as int, kind),
        command == finish_on_release(kind),
{
    if let Some(cell) = to_world(x, y) {
        match kind {
            MouseEventKind::Drag(_) => {
                *complete = true;
            },
            MouseEventKind::Down(_) => {
                if *started {
                    *complete = true;
                }
            },
            _ => {},
        }
        if points.len() == 0 {
            *started = true;
        }
        reach(points, cell);
    }
    match kind {
        MouseEventKind::Up(_) => Command::FinishStroke,
        _ => Command::NoOp,
    }
}

} // verus!
