//! The editor's state and how a message changes it.
use vstd::prelude::*;
use crate::document::{Document, DocumentModel};
use crate::geometry::{Point, WidePoint};
use crate::host::Host;
use crate::message::Message;
use crate::scalar::{length_reaches, reaches};
use crate::session::{Session, SessionModel};
use crate::shape::{Shape, ShapeModel};
use crate::text::TextModel;
use crate::tool::Tool;

verus! {

/// The shortest drag that draws a segment: 10 in single precision. A shorter
/// one places a point.
pub const DRAG_THRESHOLD: u32 = 0x4120_0000;

/// The whole state of the editor.
#[derive(Debug)]
pub struct App {
    pub tool: Tool,
    pub document: Document,
    pub session: Session,
}

/// The state of the editor as a value.
pub struct AppModel {
    pub tool: Tool,
    pub document: DocumentModel,
    pub session: SessionModel,
}

/// What is written to a file: the tool and the drawing.
#[derive(Debug)]
pub struct Snapshot {
    pub tool: Tool,
    pub document: Document,
}

/// A snapshot as a value.
pub struct SnapshotModel {
    pub tool: Tool,
    pub document: DocumentModel,
}

/// What the host is to do after a message.
#[derive(Debug)]
pub enum Effect {
    /// Nothing.
    Idle,
    /// Write this snapshot to the file.
    Save(Snapshot),
    /// Let the user pick a file, read it, and hand what it held to
    /// [`App::load`].
    Load,
}

/// Why a file could not be read as a snapshot.
#[derive(Clone, Copy, Debug, PartialEq, Eq, Structural)]
pub enum FormatError {
    /// The file could not be opened or read.
    Io,
    /// The text is not well formed.
    Syntax,
    /// A field is missing or holds a value of the wrong type.
    Data,
    /// The text ends too early.
    Eof,
}

impl View for App {
    type V = AppModel;

    open spec fn view(&self) -> AppModel {
        AppModel { tool: self.tool, document: self.document@, session: self.session@ }
    }
}

impl View for Snapshot {
    type V = SnapshotModel;

    open spec fn view(&self) -> SnapshotModel {
        SnapshotModel { tool: self.tool, document: self.document@ }
    }
}

impl<Sum, Difference, Distance, Widen> Host<Sum, Difference, Distance, Widen> where
    Sum: Fn(u32, u32) -> u32,
    Difference: Fn(u32, u32) -> u32,
    Distance: Fn(Point, Point) -> u32,
    Widen: Fn(u32) -> u64,
 {
    /// `shape` is what a drag from `start` to `end` of the given length
    /// commits: the segment when the length reaches the threshold, the point
    /// at `start` when it does not.
    pub open spec fn commits_drag(
        &self,
        start: Point,
        end: Point,
        length: u32,
        shape: ShapeModel,
    ) -> bool {
        if reaches(length, DRAG_THRESHOLD) {
            shape matches ShapeModel::Line(line) && self.widens(start, line.p0) && self.widens(
                end,
                line.p1,
            )
        } else {
            shape matches ShapeModel::Point(point) && self.widens(start, point)
        }
    }

    /// `shape` is what a draw gesture from `start` commits: the point at
    /// `start` when the pointer never moved, else what the drag to `end`
    /// commits, its length measured from `end` to `start`.
    pub open spec fn commits(&self, start: Point, end: Option<Point>, shape: ShapeModel) -> bool {
        match end {
            None => shape matches ShapeModel::Point(point) && self.widens(start, point),
            Some(end) => exists|length: u32| #[trigger]
                self.measures(end, start, length) && self.commits_drag(start, end, length, shape),
        }
    }

    /// The shape that a drag of a measured length commits.
    pub fn drag_shape(&self, start: Point, end: Point, length: u32) -> (shape: Shape)
        requires
            self.total(),
        ensures
            self.commits_drag(start, end, length, shape@),
    {
        if length_reaches(length, DRAG_THRESHOLD) {
            Shape::Line(self.widen_line(start, end))
        } else {
            Shape::Point(self.widen_point(start))
        }
    }

    /// The shape that a draw gesture commits when it ends.
    pub fn gesture_shape(&self, start: Point, end: Option<Point>) -> (shape: Shape)
        requires
            self.total(),
        ensures
            self.commits(start, end, shape@),
    {
        match end {
            Some(end) => {
                let length: u32 = self.measure(end, start);
                self.drag_shape(start, end, length)
            },
            None => Shape::Point(self.widen_point(start)),
        }
    }
}

impl AppModel {
    /// A label is open only while the typing tool is active, a draw gesture
    /// has an end only while it has a start, and a shape is pending only
    /// while there is a shape.
    pub open spec fn wf(self) -> bool {
        &&& self.session.active_text is Some ==> self.tool == Tool::Typing
        &&& self.session.draw_end is Some ==> self.session.draw_start is Some
        &&& self.session.pending_shape ==> self.document.shapes.len() > 0
    }

    /// Whether `message` can be applied: a draw gesture can end only when one
    /// has begun, and a key can be typed only into an open label.
    pub open spec fn accepts(self, message: Message) -> bool {
        match message {
            Message::StoppedDrawing => self.session.draw_start is Some,
            Message::Typing(_) | Message::Whitespace | Message::Backspace | Message::Escape =>
                self.session.active_text is Some,
            _ => true,
        }
    }

    /// What is written to a file for this state: the tool, and the drawing as
    /// a file holds it. Nothing of the session is written.
    pub open spec fn saved(self) -> SnapshotModel {
        SnapshotModel { tool: self.tool, document: self.document.stored() }
    }

    /// The state after a snapshot has been read: the tool and the drawing of
    /// the snapshot, and no gesture begun.
    pub open spec fn restored(snapshot: SnapshotModel) -> AppModel {
        AppModel {
            tool: snapshot.tool,
            document: snapshot.document,
            session: SessionModel::empty(),
        }
    }

    /// The state with `label` in place of the open label.
    pub open spec fn with_text(self, label: TextModel) -> AppModel {
        AppModel { session: SessionModel { active_text: Some(label), ..self.session }, ..self }
    }

    /// The state after `message`, for a message that needs no arithmetic.
    /// `blank` is the label whose style a new label has.
    pub open spec fn after(self, message: Message, blank: TextModel) -> AppModel
        recommends
            self.accepts(message),
            !(message is CanvasMoved),
            !(message is DrawingMoved),
            !(message is StoppedDrawing),
    {
        match message {
            Message::SelectedTool(tool) => AppModel {
                tool,
                session: SessionModel {
                    active_text: if tool == Tool::Typing {
                        self.session.active_text
                    } else {
                        None
                    },
                    ..self.session
                },
                ..self
            },
            Message::StartedPanning(at) => AppModel {
                session: SessionModel { panning_anchor: Some(at), ..self.session },
                ..self
            },
            Message::StoppedPanning => AppModel {
                session: SessionModel { panning_anchor: None, ..self.session },
                ..self
            },
            Message::StartedDrawing(at, click) => AppModel {
                session: SessionModel {
                    draw_start: Some(at),
                    draw_end: None,
                    previous_click: Some(click),
                    pending_shape: false,
                    ..self.session
                },
                ..self
            },
            Message::StartedTyping(at, click) => AppModel {
                tool: Tool::Typing,
                document: if self.session.pending_shape {
                    self.document.without_last()
                } else {
                    self.document
                },
                session: SessionModel {
                    draw_start: None,
                    draw_end: None,
                    previous_click: Some(click),
                    active_text: Some(blank.at(at).with_content(Seq::empty())),
                    pending_shape: false,
                    ..self.session
                },
            },
            Message::Typing(ch) => {
                let label = self.session.active_text->0;
                self.with_text(label.with_content(label.content.push(ch)))
            },
            Message::Whitespace => {
                let label = self.session.active_text->0;
                self.with_text(label.with_content(label.content.push(' ')))
            },
            Message::Backspace => {
                let label = self.session.active_text->0;
                if label.content.len() > 0 {
                    self.with_text(label.with_content(label.content.drop_last()))
                } else {
                    self
                }
            },
            Message::Escape => AppModel {
                tool: Tool::Draw,
                document: self.document.with_shape(ShapeModel::Text(self.session.active_text->0)),
                session: SessionModel {
                    active_text: None,
                    pending_shape: false,
                    ..self.session
                },
            },
            Message::DoubleClick(_) | Message::Save | Message::Load => self,
            Message::CanvasMoved(_, _) | Message::DrawingMoved(_, _) | Message::StoppedDrawing =>
                self,
        }
    }

    /// The state after the canvas was moved: the view at `view_offset`, the
    /// panning anchor at `to`, all else as before.
    pub open spec fn panned(self, to: Point, view_offset: Point) -> AppModel {
        AppModel {
            document: DocumentModel { view_offset, ..self.document },
            session: SessionModel { panning_anchor: Some(to), ..self.session },
            ..self
        }
    }

    /// The state after the pointer moved during a draw gesture: the gesture
    /// ends at `end`, all else as before.
    pub open spec fn dragged(self, end: Point) -> AppModel {
        AppModel { session: SessionModel { draw_end: Some(end), ..self.session }, ..self }
    }

    /// The state after a draw gesture committed `shape`: the shape on top of
    /// the others and pending, the gesture over, all else as before.
    pub open spec fn committed(self, shape: ShapeModel) -> AppModel {
        AppModel {
            document: self.document.with_shape(shape),
            session: SessionModel {
                draw_start: None,
                draw_end: None,
                pending_shape: true,
                ..self.session
            },
            ..self
        }
    }
}

impl<Sum, Difference, Distance, Widen> Host<Sum, Difference, Distance, Widen> where
    Sum: Fn(u32, u32) -> u32,
    Difference: Fn(u32, u32) -> u32,
    Distance: Fn(Point, Point) -> u32,
    Widen: Fn(u32) -> u64,
 {
    /// `post` is the state that `message` leaves when applied to `pre`.
    ///
    /// Moving the canvas adds the movement to the view offset and keeps the
    /// pointer position as the new anchor. A move during a draw gesture puts
    /// the end of the gesture at the point of the message plus its vector;
    /// without a gesture it changes nothing. Ending a draw gesture commits
    /// the shape of the gesture. Every other message leaves `pre.after(..)`.
    pub open spec fn steps(&self, pre: AppModel, message: Message, post: AppModel) -> bool {
        match message {
            Message::CanvasMoved(to, by) => {
                &&& self.translates(pre.document.view_offset, by, post.document.view_offset)
                &&& post == pre.panned(to, post.document.view_offset)
            },
            Message::DrawingMoved(from, by) => if pre.session.draw_start is Some {
                &&& post.session.draw_end matches Some(end)
                &&& self.translates(from, by, end)
                &&& post == pre.dragged(end)
            } else {
                post == pre
            },
            Message::StoppedDrawing => {
                &&& pre.session.draw_start is Some
                &&& post.document.shapes.len() == pre.document.shapes.len() + 1
                &&& self.commits(
                    pre.session.draw_start->0,
                    pre.session.draw_end,
                    post.document.shapes.last(),
                )
                &&& post == pre.committed(post.document.shapes.last())
            },
            _ => post == pre.after(message, self.blank@),
        }
    }
}

/// The coordinate of the sample point of the given index: ten times the
/// index, in double precision.
pub open spec fn sample_coordinate(index: int) -> u64 {
    if index == 0 {
        0
    } else if index == 1 {
        0x4024_0000_0000_0000
    } else if index == 2 {
        0x4034_0000_0000_0000
    } else if index == 3 {
        0x403e_0000_0000_0000
    } else if index == 4 {
        0x4044_0000_0000_0000
    } else if index == 5 {
        0x4049_0000_0000_0000
    } else if index == 6 {
        0x404e_0000_0000_0000
    } else if index == 7 {
        0x4051_8000_0000_0000
    } else if index == 8 {
        0x4054_0000_0000_0000
    } else {
        0x4056_8000_0000_0000
    }
}

/// The shapes of a new drawing: ten points on the diagonal, ten apart, from
/// the origin on.
pub open spec fn sample_shapes() -> Seq<ShapeModel> {
    Seq::new(
        10,
        |i: int|
            ShapeModel::Point(WidePoint { x: sample_coordinate(i), y: sample_coordinate(i) }),
    )
}

fn sample_point(index: usize) -> (shape: Shape)
    requires
        index < 10,
    ensures
        shape@ == sample_shapes()[index as int],
{
    let at: u64 = if index == 0 {
        0
    } else if index == 1 {
        0x4024_0000_0000_0000
    } else if index == 2 {
        0x4034_0000_0000_0000
    } else if index == 3 {
        0x403e_0000_0000_0000
    } else if index == 4 {
        0x4044_0000_0000_0000
    } else if index == 5 {
        0x4049_0000_0000_0000
    } else if index == 6 {
        0x404e_0000_0000_0000
    } else if index == 7 {
        0x4051_8000_0000_0000
    } else if index == 8 {
        0x4054_0000_0000_0000
    } else {
        0x4056_8000_0000_0000
    };
    Shape::Point(WidePoint { x: at, y: at })
}

impl Clone for App {
    fn clone(&self) -> (app: Self)
        ensures
            app@ == self@,
    {
        App { tool: self.tool, document: self.document.clone(), session: self.session.clone() }
    }
}

impl Default for App {
    /// The state an editor starts in: the pick tool, the sample drawing, not
    /// panned, and no gesture begun.
    fn default() -> (app: Self)
        ensures
            app@ == (AppModel {
                tool: Tool::Pick,
                document: DocumentModel {
                    shapes: sample_shapes(),
                    concepts: Seq::empty(),
                    view_offset: Point { x: 0, y: 0 },
                },
                session: SessionModel::empty(),
            }),
    {
        let mut document = Document::new();
        let mut i: usize = 0;
        while i < 10
            invariant
                i <= 10,
                document@.concepts == Seq::<crate::document::Concept>::empty(),
                document@.view_offset == (Point { x: 0, y: 0 }),
                document@.shapes.len() == i,
                forall|k: int| 0 <= k < i ==> document@.shapes[k] == sample_shapes()[k],
            decreases 10 - i,
        {
            document.commit(sample_point(i));
            i += 1;
        }
        assert(document@.shapes =~= sample_shapes());
        App { tool: Tool::Pick, document, session: Session::new() }
    }
}

impl App {
    /// The state a snapshot was taken of, with no gesture begun.
    pub fn restore(snapshot: Snapshot) -> (app: App)
        ensures
            app@ == AppModel::restored(snapshot@),
    {
        App { tool: snapshot.tool, document: snapshot.document, session: Session::new() }
    }

    /// What is to be written to a file for this state.
    pub fn snapshot(&self) -> (snapshot: Snapshot)
        ensures
            snapshot@ == self@.saved(),
    {
        Snapshot { tool: self.tool, document: self.document.to_stored() }
    }

    /// Whether `message` can be applied to this state.
    pub fn accepts(&self, message: &Message) -> (yes: bool)
        ensures
            yes == self@.accepts(*message),
    {
        match message {
            Message::StoppedDrawing => self.session.draw_start.is_some(),
            Message::Typing(_) | Message::Whitespace | Message::Backspace | Message::Escape =>
                self.session.active_text.is_some(),
            _ => true,
        }
    }

    /// Takes in what a file held. A snapshot replaces the whole state, and no
    /// gesture has begun in the new state. A failure is handed back and
    /// leaves the state as it was.
    pub fn load(&mut self, read: Result<Snapshot, FormatError>) -> (report: Result<
        (),
        FormatError,
    >)
        ensures
            match read {
                Ok(snapshot) => report is Ok && final(self)@ == AppModel::restored(snapshot@),
                Err(error) => report == Err::<(), FormatError>(error) && final(self)@ == old(
                    self,
                )@,
            },
    {
        match read {
            Ok(snapshot) => {
                *self = App::restore(snapshot);
                Ok(())
            },
            Err(error) => Err(error),
        }
    }
}

/// What was read back from a file is written to the next file unchanged, and
/// the state read back has no gesture begun: nothing of a session is kept in a
/// file.
pub proof fn law_save_load_cycle(state: AppModel)
    ensures
        AppModel::restored(state.saved()).saved() == state.saved(),
        AppModel::restored(state.saved()).session == SessionModel::empty(),
        AppModel::restored(state.saved()).tool == state.tool,
        AppModel::restored(state.saved()).document == state.document.stored(),
{
    crate::document::law_stored_document_is_stable(state.document);
}

/// The state read back from a file is well formed, whatever the file held.
pub proof fn law_restored_is_well_formed(snapshot: SnapshotModel)
    ensures
        AppModel::restored(snapshot).wf(),
{
}

/// The tool changes only when one is chosen, when a repeated click opens a
/// label, and when the label is finished.
pub proof fn law_tool_changes<Sum, Difference, Distance, Widen>(
    host: Host<Sum, Difference, Distance, Widen>,
    pre: AppModel,
    message: Message,
    post: AppModel,
) where
    Sum: Fn(u32, u32) -> u32,
    Difference: Fn(u32, u32) -> u32,
    Distance: Fn(Point, Point) -> u32,
    Widen: Fn(u32) -> u64,

    requires
        pre.accepts(message),
        host.steps(pre, message, post),
    ensures
        message matches Message::SelectedTool(tool) ==> post.tool == tool,
        message is StartedTyping ==> post.tool == Tool::Typing,
        message is Escape ==> post.tool == Tool::Draw,
        !(message is SelectedTool) && !(message is StartedTyping) && !(message is Escape)
            ==> post.tool == pre.tool,
{
}

/// A committed shape is never changed. A message puts at most one shape on
/// top of the others or takes the topmost one away, and every shape that is
/// there after the message is the one that was there before it, but for a
/// shape that the message has put on top.
pub proof fn law_committed_shapes_are_kept<Sum, Difference, Distance, Widen>(
    host: Host<Sum, Difference, Distance, Widen>,
    pre: AppModel,
    message: Message,
    post: AppModel,
) where
    Sum: Fn(u32, u32) -> u32,
    Difference: Fn(u32, u32) -> u32,
    Distance: Fn(Point, Point) -> u32,
    Widen: Fn(u32) -> u64,

    requires
        pre.accepts(message),
        host.steps(pre, message, post),
    ensures
        pre.document.shapes.len() - 1 <= post.document.shapes.len() <= pre.document.shapes.len()
            + 1,
        forall|i: int|
            0 <= i < pre.document.shapes.len() && i < post.document.shapes.len()
                ==> post.document.shapes[i] == pre.document.shapes[i],
        post.document.shapes.len() > pre.document.shapes.len() ==> message is StoppedDrawing
            || message is Escape,
        post.document.shapes.len() < pre.document.shapes.len() ==> message is StartedTyping
            && pre.session.pending_shape,
        post.document.concepts == pre.document.concepts,
{
}

/// The view moves only when the canvas is moved.
pub proof fn law_view_moves_with_the_canvas<Sum, Difference, Distance, Widen>(
    host: Host<Sum, Difference, Distance, Widen>,
    pre: AppModel,
    message: Message,
    post: AppModel,
) where
    Sum: Fn(u32, u32) -> u32,
    Difference: Fn(u32, u32) -> u32,
    Distance: Fn(Point, Point) -> u32,
    Widen: Fn(u32) -> u64,

    requires
        pre.accepts(message),
        host.steps(pre, message, post),
    ensures
        !(message is CanvasMoved) ==> post.document.view_offset == pre.document.view_offset,
        message matches Message::CanvasMoved(to, by) ==> post.session.panning_anchor == Some(to)
            && host.translates(pre.document.view_offset, by, post.document.view_offset),
{
}

/// Finishing a label commits it as it was typed, where it was opened, on top
/// of the other shapes; the draw tool is active again and no label is open.
pub proof fn law_escape_commits_the_label<Sum, Difference, Distance, Widen>(
    host: Host<Sum, Difference, Distance, Widen>,
    pre: AppModel,
    post: AppModel,
) where
    Sum: Fn(u32, u32) -> u32,
    Difference: Fn(u32, u32) -> u32,
    Distance: Fn(Point, Point) -> u32,
    Widen: Fn(u32) -> u64,

    requires
        pre.accepts(Message::Escape),
        host.steps(pre, Message::Escape, post),
    ensures
        post.tool == Tool::Draw,
        post.session.active_text is None,
        post.document.shapes == pre.document.shapes.push(
            ShapeModel::Text(pre.session.active_text->0),
        ),
{
}

/// Typing changes the content of the open label and nothing else: not where
/// it stands, not its style, not the drawing.
pub proof fn law_typing_keeps_the_place<Sum, Difference, Distance, Widen>(
    host: Host<Sum, Difference, Distance, Widen>,
    pre: AppModel,
    message: Message,
    post: AppModel,
) where
    Sum: Fn(u32, u32) -> u32,
    Difference: Fn(u32, u32) -> u32,
    Distance: Fn(Point, Point) -> u32,
    Widen: Fn(u32) -> u64,

    requires
        message is Typing || message is Whitespace || message is Backspace,
        pre.accepts(message),
        host.steps(pre, message, post),
    ensures
        post.session.active_text matches Some(label) && label == (pre.session.active_text->0)
            .with_content(label.content),
        post.document == pre.document,
        post.tool == pre.tool,
        message matches Message::Typing(ch) ==> (post.session.active_text->0).content == (
            pre.session.active_text->0).content.push(ch),
        message is Whitespace ==> (post.session.active_text->0).content == (
            pre.session.active_text->0).content.push(' '),
{
}

/// Applies a message to the state and says what is left for the host to do.
pub fn update<Sum, Difference, Distance, Widen>(
    state: &mut App,
    message: Message,
    host: &Host<Sum, Difference, Distance, Widen>,
) -> (effect: Effect) where
    Sum: Fn(u32, u32) -> u32,
    Difference: Fn(u32, u32) -> u32,
    Distance: Fn(Point, Point) -> u32,
    Widen: Fn(u32) -> u64,

    requires
        host.total(),
        old(state)@.accepts(message),
    ensures
        host.steps(old(state)@, message, final(state)@),
        old(state)@.wf() ==> final(state)@.wf(),
        message is Save <==> effect is Save,
        message is Load <==> effect is Load,
        effect matches Effect::Save(snapshot) ==> snapshot@ == old(state)@.saved(),
{
    match message {
        Message::SelectedTool(tool) => {
            state.tool = tool;
            match tool {
                Tool::Typing => {},
                _ => {
                    state.session.active_text = None;
                },
            }
            Effect::Idle
        },
        Message::CanvasMoved(to, by) => {
            state.document.view_offset = host.translate(state.document.view_offset, by);
            state.session.panning_anchor = Some(to);
            Effect::Idle
        },
        Message::StartedPanning(at) => {
            state.session.panning_anchor = Some(at);
            Effect::Idle
        },
        Message::StoppedPanning => {
            state.session.panning_anchor = None;
            Effect::Idle
        },
        Message::StartedDrawing(at, click) => {
            state.session.draw_start = Some(at);
            state.session.draw_end = None;
            state.session.previous_click = Some(click);
            state.session.pending_shape = false;
            Effect::Idle
        },
        Message::DrawingMoved(from, by) => {
            if state.session.draw_start.is_some() {
                state.session.draw_end = Some(host.translate(from, by));
            }
            Effect::Idle
        },
        Message::StoppedDrawing => {
            let start = state.session.draw_start.unwrap();
            let shape = host.gesture_shape(start, state.session.draw_end);
            state.document.commit(shape);
            state.session.draw_start = None;
            state.session.draw_end = None;
            state.session.pending_shape = true;
            Effect::Idle
        },
        Message::StartedTyping(at, click) => {
            if state.session.pending_shape {
                state.document.retract();
            }
            state.session.draw_start = None;
            state.session.draw_end = None;
            state.session.previous_click = Some(click);
            state.session.active_text = Some(host.blank.opened(at));
            state.session.pending_shape = false;
            state.tool = Tool::Typing;
            Effect::Idle
        },
        Message::DoubleClick(_) => Effect::Idle,
        Message::Typing(ch) => {
            let mut label = state.session.active_text.take().unwrap();
            label.push(ch);
            state.session.active_text = Some(label);
            Effect::Idle
        },
        Message::Whitespace => {
            let mut label = state.session.active_text.take().unwrap();
            label.push(' ');
            state.session.active_text = Some(label);
            Effect::Idle
        },
        Message::Backspace => {
            let mut label = state.session.active_text.take().unwrap();
            label.erase();
            state.session.active_text = Some(label);
            Effect::Idle
        },
        Message::Escape => {
            let label = state.session.active_text.take().unwrap();
            state.document.commit(Shape::Text(label));
            state.session.pending_shape = false;
            state.tool = Tool::Draw;
            Effect::Idle
        },
        Message::Save => Effect::Save(state.snapshot()),
        Message::Load => Effect::Load,
    }
}

} // verus!
