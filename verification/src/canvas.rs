//! The canvas: what an input means in the current state, and what is painted.
use vstd::prelude::*;
use vstd::string::StrSliceExecFns;
use crate::app::{App, AppModel};
use crate::click::{classify, Button, ClickRecord, Kind, CLICK_DISTANCE, CLICK_INTERVAL};
use crate::document::Document;
use crate::event::{Event, Key};
use crate::geometry::{Point, Vector};
use crate::host::Host;
use crate::message::Message;
use crate::scalar::within;
use crate::session::Session;
use crate::shape::ShapeModel;
use crate::tool::Tool;

verus! {

/// A read-only look at the state of the editor.
#[derive(Debug)]
pub struct Canvas<'a> {
    pub tool: Tool,
    pub document: &'a Document,
    pub session: &'a Session,
}

impl<'a> View for Canvas<'a> {
    type V = AppModel;

    open spec fn view(&self) -> AppModel {
        AppModel { tool: self.tool, document: self.document@, session: self.session@ }
    }
}

impl App {
    /// The canvas of this state.
    pub fn canvas(&self) -> (canvas: Canvas<'_>)
        ensures
            canvas@ == self@,
    {
        Canvas { tool: self.tool, document: &self.document, session: &self.session }
    }
}

/// The message of a key typed into an open label. A key that produces text
/// stands for its first character; one that produces none, like every key
/// not named here, means nothing.
pub open spec fn key_message(key: Key) -> Option<Message> {
    match key {
        Key::Escape => Some(Message::Escape),
        Key::Backspace => Some(Message::Backspace),
        Key::Space => Some(Message::Whitespace),
        Key::Character(text) => if text@.len() > 0 {
            Some(Message::Typing(text@[0]))
        } else {
            None
        },
        Key::Named | Key::Unidentified => None,
    }
}

/// What the typing tool makes of an event: a key is read while a label is
/// open, and nothing else is.
pub open spec fn typed(state: AppModel, event: Event) -> Option<Message> {
    match event {
        Event::KeyPressed(key) => if state.session.active_text is Some {
            key_message(key)
        } else {
            None
        },
        _ => None,
    }
}

/// The message of a press that was classified as `click`: a single click
/// begins a draw gesture where it went down, a repeated one opens a label
/// there. Either way the message carries the record, which becomes the press
/// that the next one is held against.
pub open spec fn press_message(click: ClickRecord) -> Message {
    match click.kind {
        Kind::Single => Message::StartedDrawing(click.position, click),
        Kind::Double | Kind::Triple => Message::StartedTyping(click.position, click),
    }
}

impl<Sum, Difference, Distance, Widen> Host<Sum, Difference, Distance, Widen> where
    Sum: Fn(u32, u32) -> u32,
    Difference: Fn(u32, u32) -> u32,
    Distance: Fn(Point, Point) -> u32,
    Widen: Fn(u32) -> u64,
 {
    /// `normal` is `(cursor - half) - offset`.
    pub open spec fn normalizes_axis(&self, cursor: u32, half: u32, offset: u32, normal: u32) -> bool {
        exists|centered: u32| #[trigger]
            call_ensures(self.difference, (cursor, half), centered) && call_ensures(
                self.difference,
                (centered, offset),
                normal,
            )
    }

    /// `normal` is the pointer position in the drawing: the position on the
    /// canvas, less half the size of the canvas, less the view offset.
    pub open spec fn normalizes(&self, cursor: Point, half: Vector, offset: Point, normal: Point) -> bool {
        &&& self.normalizes_axis(cursor.x, half.x, offset.x, normal.x)
        &&& self.normalizes_axis(cursor.y, half.y, offset.y, normal.y)
    }

    /// What the pick tool makes of a pointer event at `cursor`: the middle
    /// button pans, and a move while panning moves the canvas by as much as
    /// the pointer has moved from the anchor.
    pub open spec fn picks(
        &self,
        state: AppModel,
        event: Event,
        cursor: Point,
        message: Option<Message>,
    ) -> bool {
        match event {
            Event::ButtonPressed(Button::Middle) => message == Some(Message::StartedPanning(cursor)),
            Event::ButtonReleased(Button::Middle) => message == Some(Message::StoppedPanning),
            Event::CursorMoved => match state.session.panning_anchor {
                Some(anchor) => message matches Some(Message::CanvasMoved(to, by)) && to == cursor
                    && self.displaces(anchor, cursor, by),
                None => message is None,
            },
            _ => message is None,
        }
    }

    /// What the draw tool makes of a pointer event at `cursor` at time `now`,
    /// `half` being half the size of the canvas: a press of the left button
    /// is classified and begins a gesture or opens a label, a move during a
    /// gesture reports where the gesture began and how far from there the
    /// pointer is, and a release ends the gesture that has begun. Positions
    /// are those of the drawing.
    pub open spec fn draws(
        &self,
        state: AppModel,
        event: Event,
        cursor: Point,
        half: Vector,
        now: u64,
        message: Option<Message>,
    ) -> bool {
        match event {
            Event::ButtonPressed(Button::Left) => exists|click: ClickRecord|
                {
                    &&& self.normalizes(cursor, half, state.document.view_offset, click.position)
                    &&& #[trigger] self.classifies(
                        click.position,
                        Button::Left,
                        state.session.previous_click,
                        now,
                        click,
                    )
                    &&& message == Some(press_message(click))
                },
            Event::ButtonReleased(Button::Left) => message == if state.session.draw_start is Some {
                Some(Message::StoppedDrawing)
            } else {
                None
            },
            Event::CursorMoved => match state.session.draw_start {
                Some(start) => message matches Some(Message::DrawingMoved(from, by)) && from
                    == start && exists|to: Point| #[trigger]
                    self.normalizes(cursor, half, state.document.view_offset, to)
                        && self.displaces(start, to, by),
                None => message is None,
            },
            _ => message is None,
        }
    }

    /// What an event means in `state`. The pick and the draw tool read
    /// pointer events, and only while the pointer is over the canvas
    /// (`cursor` is its position there). The typing tool reads keys, and only
    /// while a label is open.
    pub open spec fn interprets(
        &self,
        state: AppModel,
        event: Event,
        cursor: Option<Point>,
        half: Vector,
        now: u64,
        message: Option<Message>,
    ) -> bool {
        match state.tool {
            Tool::Pick => match cursor {
                Some(cursor) => self.picks(state, event, cursor, message),
                None => message is None,
            },
            Tool::Draw => match cursor {
                Some(cursor) => self.draws(state, event, cursor, half, now, message),
                None => message is None,
            },
            Tool::Typing => message == typed(state, event),
        }
    }

    /// The pointer position in the drawing.
    pub fn normalize(&self, cursor: Point, half: Vector, offset: Point) -> (normal: Point)
        requires
            self.total(),
        ensures
            self.normalizes(cursor, half, offset, normal),
    {
        let centered_x: u32 = (self.difference)(cursor.x, half.x);
        let x: u32 = (self.difference)(centered_x, offset.x);
        let centered_y: u32 = (self.difference)(cursor.y, half.y);
        let y: u32 = (self.difference)(centered_y, offset.y);
        Point { x, y }
    }
}

/// The message of a key typed into an open label.
pub fn read_key(key: &Key) -> (message: Option<Message>)
    ensures
        message == key_message(*key),
{
    match key {
        Key::Escape => Some(Message::Escape),
        Key::Backspace => Some(Message::Backspace),
        Key::Space => Some(Message::Whitespace),
        Key::Character(text) => {
            if text.as_str().unicode_len() > 0 {
                Some(Message::Typing(text.as_str().get_char(0)))
            } else {
                None
            }
        },
        Key::Named => None,
        Key::Unidentified => None,
    }
}

impl<'a> Canvas<'a> {
    /// Reads a pointer event with the pick tool.
    pub fn pick<Sum, Difference, Distance, Widen>(
        &self,
        event: &Event,
        cursor: Point,
        host: &Host<Sum, Difference, Distance, Widen>,
    ) -> (message: Option<Message>) where
        Sum: Fn(u32, u32) -> u32,
        Difference: Fn(u32, u32) -> u32,
        Distance: Fn(Point, Point) -> u32,
        Widen: Fn(u32) -> u64,

        requires
            host.total(),
        ensures
            host.picks(self@, *event, cursor, message),
    {
        match event {
            Event::ButtonPressed(Button::Middle) => Some(Message::StartedPanning(cursor)),
            Event::ButtonReleased(Button::Middle) => Some(Message::StoppedPanning),
            Event::CursorMoved => match self.session.panning_anchor {
                Some(anchor) => {
                    let by = host.displacement(anchor, cursor);
                    Some(Message::CanvasMoved(cursor, by))
                },
                None => None,
            },
            _ => None,
        }
    }

    /// Reads a pointer event with the draw tool.
    pub fn sketch<Sum, Difference, Distance, Widen>(
        &self,
        event: &Event,
        cursor: Point,
        half: Vector,
        now: u64,
        host: &Host<Sum, Difference, Distance, Widen>,
    ) -> (message: Option<Message>) where
        Sum: Fn(u32, u32) -> u32,
        Difference: Fn(u32, u32) -> u32,
        Distance: Fn(Point, Point) -> u32,
        Widen: Fn(u32) -> u64,

        requires
            host.total(),
        ensures
            host.draws(self@, *event, cursor, half, now, message),
    {
        match event {
            Event::ButtonPressed(Button::Left) => {
                let position = host.normalize(cursor, half, self.document.view_offset);
                let click = classify(position, Button::Left, self.session.previous_click, now, host);
                match click.kind {
                    Kind::Single => Some(Message::StartedDrawing(position, click)),
                    Kind::Double => Some(Message::StartedTyping(position, click)),
                    Kind::Triple => Some(Message::StartedTyping(position, click)),
                }
            },
            Event::ButtonReleased(Button::Left) => {
                if self.session.draw_start.is_some() {
                    Some(Message::StoppedDrawing)
                } else {
                    None
                }
            },
            Event::CursorMoved => match self.session.draw_start {
                Some(start) => {
                    let to = host.normalize(cursor, half, self.document.view_offset);
                    let by = host.displacement(start, to);
                    assert(host.normalizes(cursor, half, self@.document.view_offset, to)
                        && host.displaces(start, to, by));
                    Some(Message::DrawingMoved(start, by))
                },
                None => None,
            },
            _ => None,
        }
    }

    /// Reads an event with the typing tool.
    pub fn compose(&self, event: &Event) -> (message: Option<Message>)
        ensures
            message == typed(self@, *event),
    {
        match event {
            Event::KeyPressed(key) => {
                if self.session.active_text.is_some() {
                    read_key(key)
                } else {
                    None
                }
            },
            _ => None,
        }
    }

    /// Reads an event: the message it stands for in the current state, if it
    /// stands for one. The message can be applied to that state.
    ///
    /// `cursor` is the pointer position on the canvas, if the pointer is over
    /// it; `half` is half the size of the canvas; `now` is the time on the
    /// host's clock, in milliseconds.
    pub fn update<Sum, Difference, Distance, Widen>(
        &self,
        event: &Event,
        cursor: Option<Point>,
        half: Vector,
        now: u64,
        host: &Host<Sum, Difference, Distance, Widen>,
    ) -> (message: Option<Message>) where
        Sum: Fn(u32, u32) -> u32,
        Difference: Fn(u32, u32) -> u32,
        Distance: Fn(Point, Point) -> u32,
        Widen: Fn(u32) -> u64,

        requires
            host.total(),
        ensures
            host.interprets(self@, *event, cursor, half, now, message),
            message matches Some(accepted) ==> self@.accepts(accepted),
    {
        match self.tool {
            Tool::Pick => match cursor {
                Some(cursor) => self.pick(event, cursor, host),
                None => None,
            },
            Tool::Draw => match cursor {
                Some(cursor) => self.sketch(event, cursor, half, now, host),
                None => None,
            },
            Tool::Typing => self.compose(event),
        }
    }
}

/// While panning, a move of the pointer moves the view by as much as the
/// pointer has moved from the anchor, and the anchor is then where the
/// pointer is. The drawing and the tool stay as they are.
pub proof fn law_pan_follows_the_pointer<Sum, Difference, Distance, Widen>(
    host: Host<Sum, Difference, Distance, Widen>,
    pre: AppModel,
    anchor: Point,
    cursor: Point,
    half: Vector,
    now: u64,
    message: Option<Message>,
    post: AppModel,
) where
    Sum: Fn(u32, u32) -> u32,
    Difference: Fn(u32, u32) -> u32,
    Distance: Fn(Point, Point) -> u32,
    Widen: Fn(u32) -> u64,

    requires
        pre.tool == Tool::Pick,
        pre.session.panning_anchor == Some(anchor),
        host.interprets(pre, Event::CursorMoved, Some(cursor), half, now, message),
        message is Some ==> host.steps(pre, message->0, post),
    ensures
        message matches Some(Message::CanvasMoved(to, by)) && {
            &&& to == cursor
            &&& host.displaces(anchor, cursor, by)
            &&& host.translates(pre.document.view_offset, by, post.document.view_offset)
        },
        post.session.panning_anchor == Some(cursor),
        post.document.shapes == pre.document.shapes,
        post.tool == Tool::Pick,
{
}

/// With the draw tool, a first press and a release without a move between
/// them place one point, where the pointer went down in the drawing.
pub proof fn law_click_places_a_point<Sum, Difference, Distance, Widen>(
    host: Host<Sum, Difference, Distance, Widen>,
    pre: AppModel,
    cursor: Point,
    half: Vector,
    times: (u64, u64),
    pressed: Option<Message>,
    held: AppModel,
    released: Option<Message>,
    post: AppModel,
) where
    Sum: Fn(u32, u32) -> u32,
    Difference: Fn(u32, u32) -> u32,
    Distance: Fn(Point, Point) -> u32,
    Widen: Fn(u32) -> u64,

    requires
        pre.tool == Tool::Draw,
        pre.session.previous_click is None,
        host.interprets(
            pre,
            Event::ButtonPressed(Button::Left),
            Some(cursor),
            half,
            times.0,
            pressed,
        ),
        pressed is Some ==> host.steps(pre, pressed->0, held),
        host.interprets(
            held,
            Event::ButtonReleased(Button::Left),
            Some(cursor),
            half,
            times.1,
            released,
        ),
        released is Some ==> host.steps(held, released->0, post),
    ensures
        pressed matches Some(Message::StartedDrawing(at, click)) && {
            &&& host.normalizes(cursor, half, pre.document.view_offset, at)
            &&& click.kind == Kind::Single
            &&& released == Some(Message::StoppedDrawing)
            &&& post.document.shapes.len() == pre.document.shapes.len() + 1
            &&& post.document.shapes.last() matches ShapeModel::Point(point) && host.widens(
                at,
                point,
            )
            &&& post.document.shapes.drop_last() == pre.document.shapes
        },
        post.session.draw_start is None,
        post.session.draw_end is None,
        post.tool == Tool::Draw,
{
    assert(post.document.shapes.drop_last() =~= pre.document.shapes);
}

/// During a draw gesture, a move of the pointer reports where the gesture
/// began and how far from there the pointer is in the drawing, and the
/// gesture then ends at the one plus the other. Its start, the drawing and
/// the tool stay as they are: a move commits nothing.
pub proof fn law_drag_follows_the_pointer<Sum, Difference, Distance, Widen>(
    host: Host<Sum, Difference, Distance, Widen>,
    pre: AppModel,
    start: Point,
    cursor: Point,
    half: Vector,
    now: u64,
    message: Option<Message>,
    post: AppModel,
) where
    Sum: Fn(u32, u32) -> u32,
    Difference: Fn(u32, u32) -> u32,
    Distance: Fn(Point, Point) -> u32,
    Widen: Fn(u32) -> u64,

    requires
        pre.tool == Tool::Draw,
        pre.session.draw_start == Some(start),
        host.interprets(pre, Event::CursorMoved, Some(cursor), half, now, message),
        message is Some ==> host.steps(pre, message->0, post),
    ensures
        message matches Some(Message::DrawingMoved(from, by)) && {
            &&& from == start
            &&& exists|to: Point| #[trigger]
                host.normalizes(cursor, half, pre.document.view_offset, to) && host.displaces(
                    start,
                    to,
                    by,
                )
            &&& post.session.draw_end matches Some(end) && host.translates(start, by, end)
        },
        post.session.draw_start == Some(start),
        post.document == pre.document,
        post.tool == Tool::Draw,
{
}

/// With the draw tool, a press of the left button that continues the press
/// before it is of the kind that follows: after a single click a double
/// click and after a double click a triple click, which open a label where
/// the pointer went down, and after a triple click a single click, which
/// begins a draw gesture there.
///
/// The press continues the one before it when that one was of the left
/// button, no more than `CLICK_INTERVAL` earlier, and no further away than
/// `CLICK_DISTANCE`, as the host measures it.
pub proof fn law_press_continues_a_click<Sum, Difference, Distance, Widen>(
    host: Host<Sum, Difference, Distance, Widen>,
    state: AppModel,
    before: ClickRecord,
    cursor: Point,
    half: Vector,
    now: u64,
    message: Option<Message>,
) where
    Sum: Fn(u32, u32) -> u32,
    Difference: Fn(u32, u32) -> u32,
    Distance: Fn(Point, Point) -> u32,
    Widen: Fn(u32) -> u64,

    requires
        state.tool == Tool::Draw,
        state.session.previous_click == Some(before),
        before.button == Button::Left,
        before.time <= now,
        now - before.time <= CLICK_INTERVAL,
        forall|to: Point, separation: u32|
            host.normalizes(cursor, half, state.document.view_offset, to) && #[trigger]
            host.measures(before.position, to, separation) ==> within(separation, CLICK_DISTANCE),
        host.interprets(
            state,
            Event::ButtonPressed(Button::Left),
            Some(cursor),
            half,
            now,
            message,
        ),
    ensures
        match before.kind {
            Kind::Single => message matches Some(Message::StartedTyping(at, click)) && click.kind
                == Kind::Double && click.position == at && host.normalizes(
                cursor,
                half,
                state.document.view_offset,
                at,
            ),
            Kind::Double => message matches Some(Message::StartedTyping(at, click)) && click.kind
                == Kind::Triple && click.position == at && host.normalizes(
                cursor,
                half,
                state.document.view_offset,
                at,
            ),
            Kind::Triple => message matches Some(Message::StartedDrawing(at, click)) && click.kind
                == Kind::Single && click.position == at && host.normalizes(
                cursor,
                half,
                state.document.view_offset,
                at,
            ),
        },
        message matches Some(accepted) && state.accepts(accepted),
{
}

/// With the draw tool, a press of the left button that does not continue the
/// press before it is a single click and begins a draw gesture: when there
/// was no press before it, or that one was of another button, later on the
/// clock, or more than `CLICK_INTERVAL` earlier.
pub proof fn law_press_starts_over<Sum, Difference, Distance, Widen>(
    host: Host<Sum, Difference, Distance, Widen>,
    state: AppModel,
    cursor: Point,
    half: Vector,
    now: u64,
    message: Option<Message>,
) where
    Sum: Fn(u32, u32) -> u32,
    Difference: Fn(u32, u32) -> u32,
    Distance: Fn(Point, Point) -> u32,
    Widen: Fn(u32) -> u64,

    requires
        state.tool == Tool::Draw,
        state.session.previous_click matches Some(before) ==> before.button != Button::Left || now
            < before.time || now - before.time > CLICK_INTERVAL,
        host.interprets(
            state,
            Event::ButtonPressed(Button::Left),
            Some(cursor),
            half,
            now,
            message,
        ),
    ensures
        message matches Some(Message::StartedDrawing(at, click)) && click.kind == Kind::Single
            && click.position == at && click.time == now && host.normalizes(
            cursor,
            half,
            state.document.view_offset,
            at,
        ),
{
}

} // verus!
