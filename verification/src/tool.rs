//! The tool that decides how input is read.
use vstd::prelude::*;

verus! {

/// The active tool. Exactly one is active at a time.
#[derive(Clone, Copy, Debug, PartialEq, Eq, Structural)]
pub enum Tool {
    /// Pans the canvas.
    Pick,
    /// Places points and segments, and opens a text label on a repeated click.
    Draw,
    /// Edits the open text label.
    Typing,
}

impl Default for Tool {
    /// The tool an editor starts with.
    fn default() -> (tool: Self)
        ensures
            tool == Tool::Pick,
    {
        Tool::Pick
    }
}

} // verus!
