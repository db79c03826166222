//! Straight runs of cells between two world cells, as `line_drawing` walks
//! them.

use vstd::prelude::*;
use line_drawing::Bresenham;
use crate::tools::is_world;

verus! {

/// The cells that `line_drawing::Bresenham` walks from `start` to `end`, in
/// the order in which it gives them.
pub uninterp spec fn bresenham_line(start: (usize, usize), end: (usize, usize)) -> Seq<(usize, usize)>;

/// `line_drawing::Bresenham::new(start, end)`, collected: the walk from
/// `start` to `end` depends on the two cells alone. Both cells are world
/// cells, so that none of the walk's sums and differences leaves the signed
/// machine word that it is computed in.
#[verifier::external_body]
pub(crate) fn bresenham(start: (usize, usize), end: (usize, usize)) -> (cells: Vec<(usize, usize)>)
    requires
        is_world(start.0 as int),
        is_world(start.1 as int),
        is_world(end.0 as int),
        is_world(end.1 as int),
    ensures
        cells@ == bresenham_line(start, end),
{
    Bresenham::new((start.0 as isize, start.1 as isize), (end.0 as isize, end.1 as isize))
        .map(|(x, y)| (x as usize, y as usize))
        .collect()
}

/// The cells of the walk from `start` to `end`: none where one of the two
/// is no world cell.
pub fn bresenham_cells(start: (usize, usize), end: (usize, usize)) -> (cells: Option<Vec<(usize, usize)>>)
    ensures
        cells is Some <==> is_world(start.0 as int) && is_world(start.1 as int) && is_world(end.0 as int)
            && is_world(end.1 as int),
        cells matches Some(walk) ==> walk@ == bresenham_line(start, end),
{
    let limit = isize::MAX as usize;
    if start.0 < limit && start.1 < limit && end.0 < limit && end.1 < limit {
        Some(bresenham(start, end))
    } else {
        None
    }
}

} // verus!
