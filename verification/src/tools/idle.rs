//! The idle tool: the safe default, which draws nothing.

use vstd::prelude::*;
use crate::buffer::Buffer;
use crate::tools::{Command, KeyEvent, MouseEventKind};

verus! {

/// The tool that is live while none is selected.
pub struct Idle {}

impl Idle {
    pub fn new() -> Idle {
        Idle {  }
    }

    /// Every pointer event hands the pointer back.
    pub fn mouse_event(&mut self, x: isize, y: isize, kind: MouseEventKind) -> (command: Command)
        ensures
            command == Command::ResetFocus,
    {
        Command::ResetFocus
    }

    pub fn key_event(&mut self, event: KeyEvent) -> (command: Command)
        ensures
            command == Command::NoOp,
    {
        Command::NoOp
    }

    pub fn bounding_box(&self) -> (found: Option<(usize, usize, usize, usize)>)
        ensures
            found is None,
    {
        None
    }

    pub fn complete(&self) -> (done: bool)
        ensures
            !done,
    {
        false
    }

    pub fn render(&self, buffer: &mut Buffer, ascii_mode: bool)
        ensures
            final(buffer)@ == old(buffer)@,
    {
    }

    pub fn render_bounded(
        &self,
        min_x: usize,
        max_x: usize,
        min_y: usize,
        max_y: usize,
        buffer: &mut Buffer,
        ascii_mode: bool,
    )
        ensures
            final(buffer)@ == old(buffer)@,
    {
    }
}

} // verus!
