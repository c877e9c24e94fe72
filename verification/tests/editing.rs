use molecular::app::{update, App, Effect, Snapshot, DRAG_THRESHOLD};
use molecular::click::{Button, ClickRecord, Kind};
use molecular::document::Document;
use molecular::geometry::{Point, Vector, WideLine, WidePoint};
use molecular::host::Host;
use molecular::message::Message;
use molecular::shape::Shape;
use molecular::text::{
    Alignment, Color, Family, Font, LineHeight, Shaping, Stretch, Style, TextLabel, Vertical,
    Weight,
};
use molecular::tool::Tool;

fn blank() -> TextLabel {
    TextLabel {
        content: String::new(),
        position: Point::new(0, 0),
        max_width: f32::INFINITY.to_bits(),
        color: Color { r: 0, g: 0, b: 0, a: 1.0f32.to_bits() },
        size: 16.0f32.to_bits(),
        line_height: LineHeight::Relative(1.2f32.to_bits()),
        font: Font {
            family: Family::SansSerif,
            weight: Weight::Normal,
            stretch: Stretch::Normal,
            style: Style::Normal,
        },
        align_x: Alignment::Default,
        align_y: Vertical::Top,
        shaping: Shaping::Auto,
    }
}

fn host() -> Host<
    impl Fn(u32, u32) -> u32,
    impl Fn(u32, u32) -> u32,
    impl Fn(Point, Point) -> u32,
    impl Fn(u32) -> u64,
> {
    Host {
        blank: blank(),
        sum: |a: u32, b: u32| (f32::from_bits(a) + f32::from_bits(b)).to_bits(),
        difference: |a: u32, b: u32| (f32::from_bits(a) - f32::from_bits(b)).to_bits(),
        distance: |p: Point, q: Point| {
            (f32::from_bits(p.x) - f32::from_bits(q.x))
                .hypot(f32::from_bits(p.y) - f32::from_bits(q.y))
                .to_bits()
        },
        widen: |a: u32| (f32::from_bits(a) as f64).to_bits(),
    }
}

fn at(x: f32, y: f32) -> Point {
    Point::new(x.to_bits(), y.to_bits())
}

fn repeated(position: Point, time: u64) -> ClickRecord {
    ClickRecord { position, button: Button::Left, kind: Kind::Double, time }
}

fn by(x: f32, y: f32) -> Vector {
    Vector::new(x.to_bits(), y.to_bits())
}

fn wide(x: f64, y: f64) -> WidePoint {
    WidePoint::new(x.to_bits(), y.to_bits())
}

fn single(position: Point, time: u64) -> ClickRecord {
    ClickRecord { position, button: Button::Left, kind: Kind::Single, time }
}

fn empty(tool: Tool) -> App {
    App::restore(Snapshot { tool, document: Document::new() })
}

fn is_point(shape: &Shape, expected: WidePoint) -> bool {
    matches!(shape, Shape::Point(point) if *point == expected)
}

fn is_line(shape: &Shape, expected: WideLine) -> bool {
    matches!(shape, Shape::Line(line) if *line == expected)
}

#[test]
fn drag_threshold_is_ten() {
    assert_eq!(DRAG_THRESHOLD, 10.0f32.to_bits());
}

#[test]
fn gesture_without_movement_commits_a_point() {
    let host = host();
    let mut app = empty(Tool::Draw);
    update(&mut app, Message::StartedDrawing(at(0.0, 0.0), single(at(0.0, 0.0), 0)), &host);
    update(&mut app, Message::DrawingMoved(at(0.0, 0.0), by(0.0, 0.0)), &host);
    update(&mut app, Message::StoppedDrawing, &host);
    assert_eq!(app.document.shapes.len(), 1);
    assert!(is_point(&app.document.shapes[0], wide(0.0, 0.0)));
    assert_eq!(app.session.draw_start, None);
    assert_eq!(app.session.draw_end, None);
}

#[test]
fn gesture_that_never_moved_commits_a_point() {
    let host = host();
    let mut app = empty(Tool::Draw);
    update(&mut app, Message::StartedDrawing(at(7.5, -2.25), single(at(7.5, -2.25), 0)), &host);
    update(&mut app, Message::StoppedDrawing, &host);
    assert_eq!(app.document.shapes.len(), 1);
    assert!(is_point(&app.document.shapes[0], wide(7.5, -2.25)));
    assert!(app.session.pending_shape);
}

#[test]
fn long_drag_commits_a_line() {
    let host = host();
    let mut app = empty(Tool::Draw);
    update(&mut app, Message::StartedDrawing(at(0.0, 0.0), single(at(0.0, 0.0), 0)), &host);
    update(&mut app, Message::DrawingMoved(at(0.0, 0.0), by(20.0, 0.0)), &host);
    assert_eq!(app.session.draw_end, Some(at(20.0, 0.0)));
    assert!(app.document.shapes.is_empty());
    update(&mut app, Message::StoppedDrawing, &host);
    assert_eq!(app.document.shapes.len(), 1);
    assert!(is_line(&app.document.shapes[0], WideLine::new(wide(0.0, 0.0), wide(20.0, 0.0))));
    assert_eq!(app.session.draw_start, None);
    assert_eq!(app.session.draw_end, None);
}

#[test]
fn short_drag_commits_a_point() {
    let host = host();
    let mut app = empty(Tool::Draw);
    update(&mut app, Message::StartedDrawing(at(0.0, 0.0), single(at(0.0, 0.0), 0)), &host);
    update(&mut app, Message::DrawingMoved(at(0.0, 0.0), by(5.0, 0.0)), &host);
    update(&mut app, Message::StoppedDrawing, &host);
    assert_eq!(app.document.shapes.len(), 1);
    assert!(is_point(&app.document.shapes[0], wide(0.0, 0.0)));
}

#[test]
fn drag_of_exactly_the_threshold_commits_a_line() {
    let host = host();
    let mut app = empty(Tool::Draw);
    update(&mut app, Message::StartedDrawing(at(1.0, 1.0), single(at(1.0, 1.0), 0)), &host);
    update(&mut app, Message::DrawingMoved(at(1.0, 1.0), by(6.0, 8.0)), &host);
    update(&mut app, Message::StoppedDrawing, &host);
    assert!(is_line(&app.document.shapes[0], WideLine::new(wide(1.0, 1.0), wide(7.0, 9.0))));
}

#[test]
fn shapes_keep_the_order_in_which_they_were_committed() {
    let host = host();
    let mut app = empty(Tool::Draw);
    for (i, x) in [3.0f32, 1.0, 2.0].into_iter().enumerate() {
        update(&mut app, Message::StartedDrawing(at(x, 0.0), single(at(x, 0.0), 1_000 * i as u64)), &host);
        update(&mut app, Message::StoppedDrawing, &host);
    }
    assert_eq!(app.document.shapes.len(), 3);
    assert!(is_point(&app.document.shapes[0], wide(3.0, 0.0)));
    assert!(is_point(&app.document.shapes[1], wide(1.0, 0.0)));
    assert!(is_point(&app.document.shapes[2], wide(2.0, 0.0)));
}

#[test]
fn new_gesture_forgets_where_the_last_one_went() {
    let host = host();
    let mut app = empty(Tool::Draw);
    update(&mut app, Message::StartedDrawing(at(0.0, 0.0), single(at(0.0, 0.0), 0)), &host);
    update(&mut app, Message::DrawingMoved(at(0.0, 0.0), by(50.0, 0.0)), &host);
    update(&mut app, Message::StartedDrawing(at(9.0, 9.0), single(at(9.0, 9.0), 5_000)), &host);
    assert_eq!(app.session.draw_end, None);
    assert_eq!(app.session.previous_click, Some(single(at(9.0, 9.0), 5_000)));
    update(&mut app, Message::StoppedDrawing, &host);
    assert!(is_point(&app.document.shapes[0], wide(9.0, 9.0)));
}

#[test]
fn move_puts_the_end_at_the_point_plus_the_vector() {
    let host = host();
    let mut app = empty(Tool::Draw);
    update(&mut app, Message::StartedDrawing(at(0.0, 0.0), single(at(0.0, 0.0), 0)), &host);
    update(&mut app, Message::DrawingMoved(at(0.0, 0.0), by(15.0, 3.0)), &host);
    assert_eq!(app.session.draw_end, Some(at(15.0, 3.0)));
    assert_eq!(app.session.draw_start, Some(at(0.0, 0.0)));
    update(&mut app, Message::DrawingMoved(at(0.0, 0.0), by(-4.5, 0.25)), &host);
    assert_eq!(app.session.draw_end, Some(at(-4.5, 0.25)));
    update(&mut app, Message::DrawingMoved(at(2.0, 1.0), by(0.5, 0.5)), &host);
    assert_eq!(app.session.draw_end, Some(at(2.5, 1.5)));
    assert_eq!(app.session.draw_start, Some(at(0.0, 0.0)));
    assert!(app.document.shapes.is_empty());
}

#[test]
fn move_without_a_gesture_changes_nothing() {
    let host = host();
    let mut app = empty(Tool::Draw);
    let before = format!("{app:?}");
    update(&mut app, Message::DrawingMoved(at(5.0, 5.0), by(5.0, 5.0)), &host);
    assert_eq!(format!("{app:?}"), before);
    assert_eq!(app.session.draw_end, None);
}

#[test]
fn three_moves_pan_the_view_by_their_sum() {
    let host = host();
    let mut app = empty(Tool::Pick);
    app.document.view_offset = at(100.0, -30.0);
    update(&mut app, Message::StartedPanning(at(10.0, 10.0)), &host);
    assert_eq!(app.session.panning_anchor, Some(at(10.0, 10.0)));
    update(&mut app, Message::CanvasMoved(at(12.0, 10.0), by(2.0, 0.0)), &host);
    assert_eq!(app.session.panning_anchor, Some(at(12.0, 10.0)));
    assert_eq!(app.document.view_offset, at(102.0, -30.0));
    update(&mut app, Message::CanvasMoved(at(15.0, 10.0), by(3.0, 0.0)), &host);
    assert_eq!(app.session.panning_anchor, Some(at(15.0, 10.0)));
    assert_eq!(app.document.view_offset, at(105.0, -30.0));
    update(&mut app, Message::CanvasMoved(at(14.0, 10.0), by(-1.0, 0.0)), &host);
    assert_eq!(app.session.panning_anchor, Some(at(14.0, 10.0)));
    assert_eq!(app.document.view_offset, at(104.0, -30.0));
    update(&mut app, Message::StoppedPanning, &host);
    assert_eq!(app.session.panning_anchor, None);
    assert_eq!(app.document.view_offset, at(104.0, -30.0));
}

#[test]
fn escape_commits_the_typed_label() {
    let host = host();
    let mut app = empty(Tool::Draw);
    update(&mut app, Message::StartedTyping(at(33.0, 44.0), repeated(at(33.0, 44.0), 9_100)), &host);
    assert_eq!(app.tool, Tool::Typing);
    assert_eq!(app.session.active_text.as_ref().unwrap().content, "");
    update(&mut app, Message::Typing('h'), &host);
    update(&mut app, Message::Typing('i'), &host);
    assert_eq!(app.session.active_text.as_ref().unwrap().content, "hi");
    assert_eq!(app.session.active_text.as_ref().unwrap().position, at(33.0, 44.0));
    assert!(app.document.shapes.is_empty());
    update(&mut app, Message::Escape, &host);
    assert_eq!(app.tool, Tool::Draw);
    assert!(app.session.active_text.is_none());
    assert_eq!(app.document.shapes.len(), 1);
    match &app.document.shapes[0] {
        Shape::Text(label) => {
            assert_eq!(label.content, "hi");
            assert_eq!(label.position, at(33.0, 44.0));
            assert_eq!(label.max_width, f32::INFINITY.to_bits());
            assert_eq!(label.size, 16.0f32.to_bits());
            assert_eq!(label.line_height, LineHeight::Relative(1.2f32.to_bits()));
            assert_eq!(label.color, Color { r: 0, g: 0, b: 0, a: 1.0f32.to_bits() });
        }
        other => panic!("not a label: {other:?}"),
    }
}

#[test]
fn opened_label_is_empty_whatever_the_default_text_holds() {
    let mut host = host();
    host.blank.content = String::from("placeholder");
    host.blank.position = at(1.0, 1.0);
    host.blank.size = 24.0f32.to_bits();
    let mut app = empty(Tool::Draw);
    update(&mut app, Message::StartedTyping(at(3.0, 4.0), repeated(at(3.0, 4.0), 10)), &host);
    let label = app.session.active_text.as_ref().unwrap();
    assert_eq!(label.content, "");
    assert_eq!(label.position, at(3.0, 4.0));
    assert_eq!(label.size, 24.0f32.to_bits());
    assert_eq!(app.session.previous_click, Some(repeated(at(3.0, 4.0), 10)));
}

#[test]
fn backspace_and_space_edit_the_end_of_the_label() {
    let host = host();
    let mut app = empty(Tool::Draw);
    update(&mut app, Message::StartedTyping(at(0.0, 0.0), repeated(at(0.0, 0.0), 9_100)), &host);
    update(&mut app, Message::Backspace, &host);
    assert_eq!(app.session.active_text.as_ref().unwrap().content, "");
    update(&mut app, Message::Typing('a'), &host);
    update(&mut app, Message::Whitespace, &host);
    update(&mut app, Message::Typing('é'), &host);
    assert_eq!(app.session.active_text.as_ref().unwrap().content, "a é");
    update(&mut app, Message::Backspace, &host);
    assert_eq!(app.session.active_text.as_ref().unwrap().content, "a ");
    update(&mut app, Message::Backspace, &host);
    update(&mut app, Message::Backspace, &host);
    update(&mut app, Message::Backspace, &host);
    assert_eq!(app.session.active_text.as_ref().unwrap().content, "");
    assert_eq!(app.session.active_text.as_ref().unwrap().position, at(0.0, 0.0));
    assert_eq!(app.tool, Tool::Typing);
}

#[test]
fn repeated_click_takes_back_the_point_of_the_first_click() {
    let host = host();
    let mut app = empty(Tool::Draw);
    update(&mut app, Message::StartedDrawing(at(1.0, 1.0), single(at(1.0, 1.0), 0)), &host);
    update(&mut app, Message::StoppedDrawing, &host);
    update(&mut app, Message::StartedDrawing(at(5.0, 5.0), single(at(5.0, 5.0), 9_000)), &host);
    update(&mut app, Message::StoppedDrawing, &host);
    assert_eq!(app.document.shapes.len(), 2);
    update(&mut app, Message::StartedTyping(at(5.0, 5.0), repeated(at(5.0, 5.0), 9_100)), &host);
    assert_eq!(app.document.shapes.len(), 1);
    assert!(is_point(&app.document.shapes[0], wide(1.0, 1.0)));
    assert!(!app.session.pending_shape);
    update(&mut app, Message::Typing('x'), &host);
    update(&mut app, Message::Escape, &host);
    assert_eq!(app.document.shapes.len(), 2);
    assert!(matches!(&app.document.shapes[1], Shape::Text(label) if label.content == "x"));
}

#[test]
fn repeated_click_leaves_shapes_of_other_gestures() {
    let host = host();
    let mut app = empty(Tool::Draw);
    update(&mut app, Message::StartedDrawing(at(1.0, 1.0), single(at(1.0, 1.0), 0)), &host);
    update(&mut app, Message::StoppedDrawing, &host);
    update(&mut app, Message::StartedDrawing(at(2.0, 2.0), single(at(2.0, 2.0), 9_000)), &host);
    assert!(!app.session.pending_shape);
    update(&mut app, Message::DrawingMoved(at(2.0, 2.0), by(1.0, 1.0)), &host);
    update(&mut app, Message::StartedTyping(at(2.0, 2.0), repeated(at(2.0, 2.0), 9_100)), &host);
    assert_eq!(app.document.shapes.len(), 1);
    assert!(is_point(&app.document.shapes[0], wide(1.0, 1.0)));
    assert_eq!(app.session.draw_start, None);
    assert_eq!(app.session.draw_end, None);
    assert_eq!(app.tool, Tool::Typing);
}

#[test]
fn repeated_click_on_an_empty_drawing_opens_a_label() {
    let host = host();
    let mut app = empty(Tool::Draw);
    update(&mut app, Message::StartedTyping(at(2.0, 2.0), repeated(at(2.0, 2.0), 9_100)), &host);
    assert!(app.document.shapes.is_empty());
    assert_eq!(app.tool, Tool::Typing);
    assert!(app.session.active_text.is_some());
}

#[test]
fn choosing_a_tool_sets_it() {
    let host = host();
    let mut app = empty(Tool::Pick);
    update(&mut app, Message::SelectedTool(Tool::Draw), &host);
    assert_eq!(app.tool, Tool::Draw);
    update(&mut app, Message::SelectedTool(Tool::Pick), &host);
    assert_eq!(app.tool, Tool::Pick);
    update(&mut app, Message::SelectedTool(Tool::Typing), &host);
    assert_eq!(app.tool, Tool::Typing);
    assert!(app.session.active_text.is_none());
    assert!(app.document.shapes.is_empty());
}

#[test]
fn choosing_another_tool_while_typing_drops_the_label() {
    let host = host();
    let mut app = empty(Tool::Draw);
    update(&mut app, Message::StartedTyping(at(2.0, 2.0), repeated(at(2.0, 2.0), 9_100)), &host);
    update(&mut app, Message::Typing('q'), &host);
    update(&mut app, Message::SelectedTool(Tool::Typing), &host);
    assert_eq!(app.session.active_text.as_ref().unwrap().content, "q");
    update(&mut app, Message::SelectedTool(Tool::Pick), &host);
    assert_eq!(app.tool, Tool::Pick);
    assert!(app.session.active_text.is_none());
    assert!(app.document.shapes.is_empty());
}

#[test]
fn double_click_message_changes_nothing() {
    let host = host();
    let mut app = App::default();
    let before = format!("{app:?}");
    let effect = update(&mut app, Message::DoubleClick(at(1.0, 2.0)), &host);
    assert!(matches!(effect, Effect::Idle));
    assert_eq!(format!("{app:?}"), before);
}

#[test]
fn accepts_says_which_messages_can_be_applied() {
    let host = host();
    let mut app = empty(Tool::Draw);
    assert!(!app.accepts(&Message::StoppedDrawing));
    assert!(!app.accepts(&Message::Typing('a')));
    assert!(!app.accepts(&Message::Whitespace));
    assert!(!app.accepts(&Message::Backspace));
    assert!(!app.accepts(&Message::Escape));
    assert!(app.accepts(&Message::Save));
    assert!(app.accepts(&Message::StoppedPanning));
    assert!(app.accepts(&Message::CanvasMoved(at(0.0, 0.0), by(0.0, 0.0))));
    update(&mut app, Message::StartedDrawing(at(0.0, 0.0), single(at(0.0, 0.0), 0)), &host);
    assert!(app.accepts(&Message::StoppedDrawing));
    update(&mut app, Message::StartedTyping(at(0.0, 0.0), repeated(at(0.0, 0.0), 9_100)), &host);
    assert!(!app.accepts(&Message::StoppedDrawing));
    assert!(app.accepts(&Message::Typing('a')));
    assert!(app.accepts(&Message::Whitespace));
    assert!(app.accepts(&Message::Backspace));
    assert!(app.accepts(&Message::Escape));
}

#[test]
fn new_editor_has_the_pick_tool_and_the_sample_drawing() {
    let app = App::default();
    assert_eq!(app.tool, Tool::Pick);
    assert_eq!(Tool::default(), Tool::Pick);
    assert_eq!(app.document.view_offset, at(0.0, 0.0));
    assert!(app.document.concepts.is_empty());
    assert_eq!(app.document.shapes.len(), 10);
    for (i, shape) in app.document.shapes.iter().enumerate() {
        assert!(is_point(shape, wide(i as f64 * 10.0, i as f64 * 10.0)), "{i}: {shape:?}");
    }
    assert_eq!(app.session.panning_anchor, None);
    assert_eq!(app.session.draw_start, None);
    assert_eq!(app.session.draw_end, None);
    assert_eq!(app.session.previous_click, None);
    assert!(app.session.active_text.is_none());
    assert!(!app.session.pending_shape);
}
