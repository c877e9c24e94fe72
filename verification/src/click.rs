//! Telling single, double and triple clicks apart.
//!
//! A press is held against the press before it and nothing earlier. It
//! continues that press when the button is the same, the pointer has moved no
//! further than `CLICK_DISTANCE`, and no more than `CLICK_INTERVAL`
//! milliseconds have passed. A press that continues a single click is a double
//! click, one that continues a double click is a triple click, and one that
//! continues a triple click starts over as a single click.
use vstd::prelude::*;
use crate::geometry::Point;
use crate::host::Host;
use crate::scalar::{length_within, within};

verus! {

/// The furthest the pointer may have moved between two presses of one click
/// sequence: 6 in single precision.
pub const CLICK_DISTANCE: u32 = 0x40c0_0000;

/// The longest time between two presses of one click sequence, in
/// milliseconds.
pub const CLICK_INTERVAL: u64 = 300;

/// A pointer button.
#[derive(Clone, Copy, Debug, PartialEq, Eq, Structural)]
pub enum Button {
    Left,
    Right,
    Middle,
    Back,
    Forward,
    Other(u16),
}

/// How many presses a click stands for.
#[derive(Clone, Copy, Debug, PartialEq, Eq, Structural)]
pub enum Kind {
    Single,
    Double,
    Triple,
}

/// A classified press.
#[derive(Clone, Copy, Debug, PartialEq, Eq, Structural)]
pub struct ClickRecord {
    /// Where the button went down.
    pub position: Point,
    pub button: Button,
    pub kind: Kind,
    /// When the button went down, in milliseconds on the host's clock.
    pub time: u64,
}

impl Kind {
    /// The kind of a press that continues a click of this kind.
    pub open spec fn next(self) -> Kind {
        match self {
            Kind::Single => Kind::Double,
            Kind::Double => Kind::Triple,
            Kind::Triple => Kind::Single,
        }
    }

    /// The kind of a press that continues a click of this kind.
    pub fn successor(self) -> (kind: Kind)
        ensures
            kind == self.next(),
    {
        match self {
            Kind::Single => Kind::Double,
            Kind::Double => Kind::Triple,
            Kind::Triple => Kind::Single,
        }
    }
}

/// Whether a press of `button` at time `now`, `separation` away from where
/// `previous` went down, continues `previous`.
pub open spec fn continues(previous: ClickRecord, button: Button, now: u64, separation: u32) -> bool {
    &&& previous.button == button
    &&& within(separation, CLICK_DISTANCE)
    &&& previous.time <= now
    &&& now - previous.time <= CLICK_INTERVAL
}

/// The record of a press, given how far it is from the press before it.
/// Without a press before it, `separation` plays no part.
pub open spec fn classified(
    position: Point,
    button: Button,
    previous: Option<ClickRecord>,
    now: u64,
    separation: u32,
) -> ClickRecord {
    let kind = match previous {
        Some(before) => if continues(before, button, now, separation) {
            before.kind.next()
        } else {
            Kind::Single
        },
        None => Kind::Single,
    };
    ClickRecord { position, button, kind, time: now }
}

/// Classifies a press whose distance from the press before it has been
/// measured.
pub fn classify_measured(
    position: Point,
    button: Button,
    previous: Option<ClickRecord>,
    now: u64,
    separation: u32,
) -> (click: ClickRecord)
    ensures
        click == classified(position, button, previous, now, separation),
{
    let kind = match previous {
        Some(before) => {
            if before.button == button && length_within(separation, CLICK_DISTANCE) && before.time
                <= now && now - before.time <= CLICK_INTERVAL {
                before.kind.successor()
            } else {
                Kind::Single
            }
        },
        None => Kind::Single,
    };
    ClickRecord { position, button, kind, time: now }
}

impl<Sum, Difference, Distance, Widen> Host<Sum, Difference, Distance, Widen> where
    Sum: Fn(u32, u32) -> u32,
    Difference: Fn(u32, u32) -> u32,
    Distance: Fn(Point, Point) -> u32,
    Widen: Fn(u32) -> u64,
 {
    /// `click` is the record of a press of `button` at `position` at time
    /// `now` that follows `previous`: the record that `classified` gives for
    /// the distance from the press before it to this one.
    pub open spec fn classifies(
        &self,
        position: Point,
        button: Button,
        previous: Option<ClickRecord>,
        now: u64,
        click: ClickRecord,
    ) -> bool {
        match previous {
            None => click == classified(position, button, previous, now, 0),
            Some(before) => exists|separation: u32| #[trigger]
                self.measures(before.position, position, separation) && click == classified(
                    position,
                    button,
                    previous,
                    now,
                    separation,
                ),
        }
    }
}

/// Classifies a press at `position` at time `now` against the press before
/// it. The result is to be kept as the press before the next one.
pub fn classify<Sum, Difference, Distance, Widen>(
    position: Point,
    button: Button,
    previous: Option<ClickRecord>,
    now: u64,
    host: &Host<Sum, Difference, Distance, Widen>,
) -> (click: ClickRecord) where
    Sum: Fn(u32, u32) -> u32,
    Difference: Fn(u32, u32) -> u32,
    Distance: Fn(Point, Point) -> u32,
    Widen: Fn(u32) -> u64,

    requires
        host.total(),
    ensures
        host.classifies(position, button, previous, now, click),
        click.position == position,
        click.button == button,
        click.time == now,
{
    match previous {
        Some(before) => {
            let separation: u32 = host.measure(before.position, position);
            classify_measured(position, button, previous, now, separation)
        },
        None => classify_measured(position, button, previous, now, 0),
    }
}

/// Four presses of one button, each continuing the one before it, are a
/// single, a double and a triple click and then a single click again.
pub proof fn law_click_sequence(
    button: Button,
    positions: (Point, Point, Point, Point),
    times: (u64, u64, u64, u64),
    separations: (u32, u32, u32),
)
    requires
        times.0 <= times.1 <= times.2 <= times.3,
        times.1 - times.0 <= CLICK_INTERVAL,
        times.2 - times.1 <= CLICK_INTERVAL,
        times.3 - times.2 <= CLICK_INTERVAL,
        within(separations.0, CLICK_DISTANCE),
        within(separations.1, CLICK_DISTANCE),
        within(separations.2, CLICK_DISTANCE),
    ensures
        ({
            let first = classified(positions.0, button, None, times.0, 0);
            let second = classified(positions.1, button, Some(first), times.1, separations.0);
            let third = classified(positions.2, button, Some(second), times.2, separations.1);
            let fourth = classified(positions.3, button, Some(third), times.3, separations.2);
            &&& first.kind == Kind::Single
            &&& second.kind == Kind::Double
            &&& third.kind == Kind::Triple
            &&& fourth.kind == Kind::Single
        }),
{
}

/// A press that does not continue the press before it is a single click:
/// another button, too far away, too late, or before it on the clock.
pub proof fn law_click_resets(
    position: Point,
    button: Button,
    before: ClickRecord,
    now: u64,
    separation: u32,
)
    requires
        before.button != button || !within(separation, CLICK_DISTANCE) || now < before.time || now
            - before.time > CLICK_INTERVAL,
    ensures
        classified(position, button, Some(before), now, separation).kind == Kind::Single,
{
}

} // verus!
