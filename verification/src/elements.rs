//! The elements of the screen: the workspace, the tool menu and the scroll
//! bar.

use vstd::prelude::*;
use crate::tools::MouseEventKind;

pub mod horizontal_scroll;
pub mod tool_menu;
pub mod workspace;

verus! {

/// A pointer event: what the pointer did, and in which column and row of the
/// screen.
#[derive(Clone, Copy, Debug, PartialEq, Eq, Structural)]
pub struct MouseEvent {
    pub kind: MouseEventKind,
    pub column: u16,
    pub row: u16,
}

/// Whether the cell `(x, y)` of the screen lies in the rectangle that begins
/// at `(left, top)` and is `width` wide and `height` high.
pub open spec fn covers(left: int, top: int, width: int, height: int, x: int, y: int) -> bool {
    left <= x < left + width && top <= y < top + height
}

} // verus!
