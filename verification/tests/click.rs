use molecular::click::{
    classify, classify_measured, Button, ClickRecord, Kind, CLICK_DISTANCE, CLICK_INTERVAL,
};
use molecular::geometry::Point;
use molecular::host::Host;
use molecular::text::{
    Alignment, Color, Family, Font, LineHeight, Shaping, Stretch, Style, TextLabel, Vertical,
    Weight,
};

fn blank() -> TextLabel {
    TextLabel {
        content: String::new(),
        position: Point::new(0, 0),
        max_width: f32::INFINITY.to_bits(),
        color: Color { r: 0, g: 0, b: 0, a: 1.0f32.to_bits() },
        size: 16.0f32.to_bits(),
        line_height: LineHeight::Relative(1.2f32.to_bits()),
        font: Font {
            family: Family::SansSerif,
            weight: Weight::Normal,
            stretch: Stretch::Normal,
            style: Style::Normal,
        },
        align_x: Alignment::Default,
        align_y: Vertical::Top,
        shaping: Shaping::Auto,
    }
}

fn host() -> Host<
    impl Fn(u32, u32) -> u32,
    impl Fn(u32, u32) -> u32,
    impl Fn(Point, Point) -> u32,
    impl Fn(u32) -> u64,
> {
    Host {
        blank: blank(),
        sum: |a: u32, b: u32| (f32::from_bits(a) + f32::from_bits(b)).to_bits(),
        difference: |a: u32, b: u32| (f32::from_bits(a) - f32::from_bits(b)).to_bits(),
        distance: |p: Point, q: Point| {
            (f32::from_bits(p.x) - f32::from_bits(q.x))
                .hypot(f32::from_bits(p.y) - f32::from_bits(q.y))
                .to_bits()
        },
        widen: |a: u32| (f32::from_bits(a) as f64).to_bits(),
    }
}

fn at(x: f32, y: f32) -> Point {
    Point::new(x.to_bits(), y.to_bits())
}

#[test]
fn thresholds_are_six_pixels_and_three_hundred_milliseconds() {
    assert_eq!(CLICK_DISTANCE, 6.0f32.to_bits());
    assert_eq!(CLICK_INTERVAL, 300);
}

#[test]
fn first_press_is_a_single_click() {
    let click = classify(at(3.0, 4.0), Button::Left, None, 1_000, &host());
    assert_eq!(
        click,
        ClickRecord { position: at(3.0, 4.0), button: Button::Left, kind: Kind::Single, time: 1_000 }
    );
}

#[test]
fn presses_at_one_place_are_single_double_triple_and_single_again() {
    let host = host();
    let place = at(40.0, 50.0);
    let first = classify(place, Button::Left, None, 1_000, &host);
    let second = classify(place, Button::Left, Some(first), 1_100, &host);
    let third = classify(place, Button::Left, Some(second), 1_200, &host);
    let fourth = classify(place, Button::Left, Some(third), 1_300, &host);
    let fifth = classify(place, Button::Left, Some(fourth), 1_400, &host);
    assert_eq!(first.kind, Kind::Single);
    assert_eq!(second.kind, Kind::Double);
    assert_eq!(third.kind, Kind::Triple);
    assert_eq!(fourth.kind, Kind::Single);
    assert_eq!(fifth.kind, Kind::Double);
    assert_eq!(fourth.time, 1_300);
    assert_eq!(fourth.position, place);
}

#[test]
fn press_with_another_button_is_a_single_click() {
    let host = host();
    let first = classify(at(1.0, 1.0), Button::Left, None, 0, &host);
    let second = classify(at(1.0, 1.0), Button::Right, Some(first), 10, &host);
    assert_eq!(second.kind, Kind::Single);
    assert_eq!(second.button, Button::Right);
    let third = classify(at(1.0, 1.0), Button::Other(7), Some(second), 20, &host);
    assert_eq!(third.kind, Kind::Single);
    let fourth = classify(at(1.0, 1.0), Button::Other(7), Some(third), 30, &host);
    assert_eq!(fourth.kind, Kind::Double);
    let fifth = classify(at(1.0, 1.0), Button::Other(8), Some(fourth), 40, &host);
    assert_eq!(fifth.kind, Kind::Single);
}

#[test]
fn press_too_far_away_is_a_single_click() {
    let host = host();
    let first = classify(at(0.0, 0.0), Button::Left, None, 0, &host);
    let near = classify(at(3.0, 4.0), Button::Left, Some(first), 10, &host);
    assert_eq!(near.kind, Kind::Double);
    let on_the_limit = classify(at(6.0, 0.0), Button::Left, Some(first), 10, &host);
    assert_eq!(on_the_limit.kind, Kind::Double);
    let far = classify(at(6.5, 0.0), Button::Left, Some(first), 10, &host);
    assert_eq!(far.kind, Kind::Single);
    let diagonal = classify(at(5.0, 5.0), Button::Left, Some(first), 10, &host);
    assert_eq!(diagonal.kind, Kind::Single);
}

#[test]
fn press_too_late_is_a_single_click() {
    let host = host();
    let first = classify(at(0.0, 0.0), Button::Left, None, 500, &host);
    assert_eq!(classify(at(0.0, 0.0), Button::Left, Some(first), 500, &host).kind, Kind::Double);
    assert_eq!(classify(at(0.0, 0.0), Button::Left, Some(first), 800, &host).kind, Kind::Double);
    assert_eq!(classify(at(0.0, 0.0), Button::Left, Some(first), 801, &host).kind, Kind::Single);
    assert_eq!(
        classify(at(0.0, 0.0), Button::Left, Some(first), u64::MAX, &host).kind,
        Kind::Single
    );
}

#[test]
fn press_before_the_previous_one_on_the_clock_is_a_single_click() {
    let host = host();
    let first = classify(at(0.0, 0.0), Button::Left, None, 500, &host);
    assert_eq!(classify(at(0.0, 0.0), Button::Left, Some(first), 499, &host).kind, Kind::Single);
    assert_eq!(classify(at(0.0, 0.0), Button::Left, Some(first), 0, &host).kind, Kind::Single);
}

#[test]
fn press_at_no_number_is_a_single_click() {
    let host = host();
    let first = classify(at(0.0, 0.0), Button::Left, None, 0, &host);
    let lost = classify(at(f32::NAN, 0.0), Button::Left, Some(first), 10, &host);
    assert_eq!(lost.kind, Kind::Single);
    let away = classify(at(f32::INFINITY, 0.0), Button::Left, Some(first), 10, &host);
    assert_eq!(away.kind, Kind::Single);
}

#[test]
fn measured_classification_reads_the_separation() {
    let before =
        ClickRecord { position: at(0.0, 0.0), button: Button::Left, kind: Kind::Double, time: 100 };
    let near = classify_measured(at(9.0, 9.0), Button::Left, Some(before), 200, 2.0f32.to_bits());
    assert_eq!(near.kind, Kind::Triple);
    assert_eq!(near.position, at(9.0, 9.0));
    let far = classify_measured(at(0.0, 0.0), Button::Left, Some(before), 200, 7.0f32.to_bits());
    assert_eq!(far.kind, Kind::Single);
    let alone = classify_measured(at(0.0, 0.0), Button::Left, None, 200, 0);
    assert_eq!(alone.kind, Kind::Single);
}

#[test]
fn successor_goes_round() {
    assert_eq!(Kind::Single.successor(), Kind::Double);
    assert_eq!(Kind::Double.successor(), Kind::Triple);
    assert_eq!(Kind::Triple.successor(), Kind::Single);
}
