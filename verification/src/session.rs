//! An edit in progress. None of it is written to a file.
use vstd::prelude::*;
use crate::click::ClickRecord;
use crate::geometry::Point;
use crate::text::{TextLabel, TextModel};

verus! {

/// The state of the gestures that have begun and not ended.
#[derive(Debug)]
pub struct Session {
    /// Where the pointer was when the canvas was last moved, while panning.
    pub panning_anchor: Option<Point>,
    /// Where the draw gesture began, while there is one.
    pub draw_start: Option<Point>,
    /// Where the pointer has moved to during the draw gesture, once it moved.
    pub draw_end: Option<Point>,
    /// The press that the next press is held against.
    pub previous_click: Option<ClickRecord>,
    /// The label that is being typed.
    pub active_text: Option<TextLabel>,
    /// Whether the topmost shape was committed by the click sequence that is
    /// still under way. A repeated click takes such a shape back.
    pub pending_shape: bool,
}

/// A session as a value.
pub struct SessionModel {
    pub panning_anchor: Option<Point>,
    pub draw_start: Option<Point>,
    pub draw_end: Option<Point>,
    pub previous_click: Option<ClickRecord>,
    pub active_text: Option<TextModel>,
    pub pending_shape: bool,
}

impl View for Session {
    type V = SessionModel;

    open spec fn view(&self) -> SessionModel {
        SessionModel {
            panning_anchor: self.panning_anchor,
            draw_start: self.draw_start,
            draw_end: self.draw_end,
            previous_click: self.previous_click,
            active_text: match self.active_text {
                Some(label) => Some(label@),
                None => None,
            },
            pending_shape: self.pending_shape,
        }
    }
}

impl SessionModel {
    /// No gesture has begun.
    pub open spec fn empty() -> SessionModel {
        SessionModel {
            panning_anchor: None,
            draw_start: None,
            draw_end: None,
            previous_click: None,
            active_text: None,
            pending_shape: false,
        }
    }
}

impl Clone for Session {
    fn clone(&self) -> (session: Self)
        ensures
            session@ == self@,
    {
        Session {
            panning_anchor: self.panning_anchor,
            draw_start: self.draw_start,
            draw_end: self.draw_end,
            previous_click: self.previous_click,
            active_text: match &self.active_text {
                Some(label) => Some(label.clone()),
                None => None,
            },
            pending_shape: self.pending_shape,
        }
    }
}

impl Session {
    /// A session in which no gesture has begun.
    pub fn new() -> (session: Session)
        ensures
            session@ == SessionModel::empty(),
    {
        Session {
            panning_anchor: None,
            draw_start: None,
            draw_end: None,
            previous_click: None,
            active_text: None,
            pending_shape: false,
        }
    }
}

} // verus!
