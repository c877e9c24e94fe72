//! The edits an input can ask for.
use vstd::prelude::*;
use crate::click::ClickRecord;
use crate::geometry::{Point, Vector};
use crate::tool::Tool;

verus! {

/// What an input means for the state of the editor.
#[derive(Clone, Copy, Debug)]
pub enum Message {
    /// A tool was chosen.
    SelectedTool(Tool),
    /// The pointer moved while panning: where it is now, and how far it moved
    /// since the last such message.
    CanvasMoved(Point, Vector),
    /// Panning began at this pointer position.
    StartedPanning(Point),
    /// Panning ended.
    StoppedPanning,
    /// A single click began a draw gesture at this position of the drawing.
    StartedDrawing(Point, ClickRecord),
    /// The pointer moved during a draw gesture: where the gesture began, and
    /// how far from there the pointer is now in the drawing. The gesture ends
    /// at the one plus the other. Without a gesture it changes nothing.
    DrawingMoved(Point, Vector),
    /// The draw gesture ended.
    StoppedDrawing,
    /// A repeated click opened a text label at this position of the drawing.
    StartedTyping(Point, ClickRecord),
    /// A character was typed.
    Typing(char),
    /// The open label is finished.
    Escape,
    /// The last character is to be removed.
    Backspace,
    /// A space was typed.
    Whitespace,
    /// A double click at this position. It changes nothing.
    DoubleClick(Point),
    /// The state is to be written to a file.
    Save,
    /// A file is to be read in place of the state.
    Load,
}

} // verus!
