//! What the host is to paint, in order.
use vstd::prelude::*;
use crate::app::AppModel;
use crate::canvas::Canvas;
use crate::geometry::{Point, Vector, WideLine, WidePoint};
use crate::host::Host;
use crate::session::SessionModel;
use crate::shape::{Shape, ShapeModel};
use crate::text::{TextLabel, TextModel};

verus! {

/// The radius of the disc that stands for a point: 5 in single precision.
pub const POINT_RADIUS: u32 = 0x40a0_0000;

/// The width of a stroke: 5 in single precision.
pub const STROKE_WIDTH: u32 = 0x40a0_0000;

/// One step of painting. Strokes are black, `STROKE_WIDTH` wide, with round
/// caps; discs are black, of radius `POINT_RADIUS`.
#[derive(Debug)]
pub enum DrawCommand {
    /// Move the origin by this much, for all that follows.
    Translate(Vector),
    /// Stroke the segment of the draw gesture under way.
    Preview(Point, Point),
    /// Draw a text label.
    Label(TextLabel),
    /// Fill a disc at a point.
    Dot(WidePoint),
    /// Stroke a segment.
    Segment(WideLine),
}

/// A step of painting as a value.
pub enum DrawCommandModel {
    Translate(Vector),
    Preview(Point, Point),
    Label(TextModel),
    Dot(WidePoint),
    Segment(WideLine),
}

impl View for DrawCommand {
    type V = DrawCommandModel;

    open spec fn view(&self) -> DrawCommandModel {
        match self {
            DrawCommand::Translate(by) => DrawCommandModel::Translate(*by),
            DrawCommand::Preview(from, to) => DrawCommandModel::Preview(*from, *to),
            DrawCommand::Label(label) => DrawCommandModel::Label(label@),
            DrawCommand::Dot(point) => DrawCommandModel::Dot(*point),
            DrawCommand::Segment(line) => DrawCommandModel::Segment(*line),
        }
    }
}

/// The values of a sequence of commands, in order.
pub open spec fn command_models(commands: Seq<DrawCommand>) -> Seq<DrawCommandModel> {
    Seq::new(commands.len(), |i: int| commands[i]@)
}

/// The command that paints a committed shape.
pub open spec fn shape_command(shape: ShapeModel) -> DrawCommandModel {
    match shape {
        ShapeModel::Point(point) => DrawCommandModel::Dot(point),
        ShapeModel::Line(line) => DrawCommandModel::Segment(line),
        ShapeModel::Text(label) => DrawCommandModel::Label(label),
    }
}

/// The preview of the draw gesture: its segment, once the pointer has moved.
pub open spec fn preview_commands(session: SessionModel) -> Seq<DrawCommandModel> {
    match (session.draw_start, session.draw_end) {
        (Some(from), Some(to)) => seq![DrawCommandModel::Preview(from, to)],
        _ => Seq::empty(),
    }
}

/// The label that is being typed, if there is one.
pub open spec fn typing_commands(session: SessionModel) -> Seq<DrawCommandModel> {
    match session.active_text {
        Some(label) => seq![DrawCommandModel::Label(label)],
        None => Seq::empty(),
    }
}

/// The committed shapes, in the order in which they were committed.
pub open spec fn shape_commands(shapes: Seq<ShapeModel>) -> Seq<DrawCommandModel> {
    Seq::new(shapes.len(), |i: int| shape_command(shapes[i]))
}

/// All that is painted for `state`: the translation first, then the preview
/// of the gesture under way, the label that is being typed, and the
/// committed shapes from the first to the last.
pub open spec fn painting(state: AppModel, translation: Vector) -> Seq<DrawCommandModel> {
    seq![DrawCommandModel::Translate(translation)] + preview_commands(state.session)
        + typing_commands(state.session) + shape_commands(state.document.shapes)
}

impl<'a> Canvas<'a> {
    /// The commands that paint the current state on a canvas whose centre is
    /// `center`. The origin is moved to the centre plus the view offset.
    /// Nothing of the state is changed.
    pub fn draw<Sum, Difference, Distance, Widen>(
        &self,
        center: Point,
        host: &Host<Sum, Difference, Distance, Widen>,
    ) -> (commands: Vec<DrawCommand>) where
        Sum: Fn(u32, u32) -> u32,
        Difference: Fn(u32, u32) -> u32,
        Distance: Fn(Point, Point) -> u32,
        Widen: Fn(u32) -> u64,

        requires
            host.total(),
        ensures
            commands@.len() > 0,
            commands@[0]@ matches DrawCommandModel::Translate(translation) && {
                &&& call_ensures(host.sum, (center.x, self@.document.view_offset.x), translation.x)
                &&& call_ensures(host.sum, (center.y, self@.document.view_offset.y), translation.y)
                &&& command_models(commands@) == painting(self@, translation)
            },
    {
        let x: u32 = (host.sum)(center.x, self.document.view_offset.x);
        let y: u32 = (host.sum)(center.y, self.document.view_offset.y);
        let translation = Vector { x, y };
        let mut commands: Vec<DrawCommand> = Vec::new();
        commands.push(DrawCommand::Translate(translation));
        match self.session.draw_start {
            Some(from) => match self.session.draw_end {
                Some(to) => {
                    commands.push(DrawCommand::Preview(from, to));
                },
                None => {},
            },
            None => {},
        }
        match &self.session.active_text {
            Some(label) => {
                commands.push(DrawCommand::Label(label.clone()));
            },
            None => {},
        }
        let ghost head = command_models(commands@);
        assert(head =~= seq![DrawCommandModel::Translate(translation)] + preview_commands(
            self@.session,
        ) + typing_commands(self@.session));
        let shapes = &self.document.shapes;
        let mut i: usize = 0;
        while i < shapes.len()
            invariant
                shapes@ == self.document.shapes@,
                call_ensures(host.sum, (center.x, self@.document.view_offset.x), translation.x),
                call_ensures(host.sum, (center.y, self@.document.view_offset.y), translation.y),
                head == seq![DrawCommandModel::Translate(translation)] + preview_commands(
                    self@.session,
                ) + typing_commands(self@.session),
                i <= shapes.len(),
                commands@.len() == head.len() + i,
                forall|k: int| 0 <= k < head.len() ==> commands@[k]@ == head[k],
                forall|k: int| 0 <= k < i ==> (#[trigger] commands@[head.len() + k])@ == shape_command(
                    shapes@[k]@,
                ),
            decreases shapes.len() - i,
        {
            let command = match &shapes[i] {
                Shape::Point(point) => DrawCommand::Dot(*point),
                Shape::Line(line) => DrawCommand::Segment(*line),
                Shape::Text(label) => DrawCommand::Label(label.clone()),
            };
            commands.push(command);
            i += 1;
        }
        assert forall|k: int| 0 <= k < commands@.len() implies command_models(commands@)[k] == (head
            + shape_commands(self@.document.shapes))[k] by {
            if k >= head.len() {
                assert(commands@[head.len() + (k - head.len())]@ == shape_command(
                    shapes@[k - head.len()]@,
                ));
            }
        }
        assert(command_models(commands@) =~= head + shape_commands(self@.document.shapes));
        assert(head[0] == DrawCommandModel::Translate(translation));
        commands
    }
}

} // verus!
