//! Text labels and their style.
use vstd::prelude::*;
use crate::geometry::Point;
use crate::scalar::{is_finite_32, storable_32, to_storable_32};

verus! {

/// A colour: red, green, blue and opacity, each a single-precision pattern.
#[derive(Clone, Copy, Debug, PartialEq, Eq, Structural)]
pub struct Color {
    pub r: u32,
    pub g: u32,
    pub b: u32,
    pub a: u32,
}

/// The height of a line of text.
#[derive(Clone, Copy, Debug, PartialEq, Eq, Structural)]
pub enum LineHeight {
    /// A factor of the size of the text.
    Relative(u32),
    /// A height in logical pixels.
    Absolute(u32),
}

/// A font family.
#[derive(Clone, Copy, Debug)]
pub enum Family {
    /// A family chosen by name.
    Name(&'static str),
    Serif,
    SansSerif,
    Cursive,
    Fantasy,
    Monospace,
}

#[derive(Clone, Copy, Debug, PartialEq, Eq, Structural)]
pub enum Weight {
    Thin,
    ExtraLight,
    Light,
    Normal,
    Medium,
    Semibold,
    Bold,
    ExtraBold,
    Black,
}

#[derive(Clone, Copy, Debug, PartialEq, Eq, Structural)]
pub enum Stretch {
    UltraCondensed,
    ExtraCondensed,
    Condensed,
    SemiCondensed,
    Normal,
    SemiExpanded,
    Expanded,
    ExtraExpanded,
    UltraExpanded,
}

#[derive(Clone, Copy, Debug, PartialEq, Eq, Structural)]
pub enum Style {
    Normal,
    Italic,
    Oblique,
}

/// A font.
#[derive(Clone, Copy, Debug)]
pub struct Font {
    pub family: Family,
    pub weight: Weight,
    pub stretch: Stretch,
    pub style: Style,
}

/// Horizontal alignment of text.
#[derive(Clone, Copy, Debug, PartialEq, Eq, Structural)]
pub enum Alignment {
    Default,
    Left,
    Center,
    Right,
    Justified,
}

/// Vertical alignment of text.
#[derive(Clone, Copy, Debug, PartialEq, Eq, Structural)]
pub enum Vertical {
    Top,
    Center,
    Bottom,
}

/// How text is shaped.
#[derive(Clone, Copy, Debug, PartialEq, Eq, Structural)]
pub enum Shaping {
    Auto,
    Basic,
    Advanced,
}

/// A piece of text on the canvas.
#[derive(Debug)]
pub struct TextLabel {
    pub content: String,
    /// Where the text stands, relative to its alignment.
    pub position: Point,
    /// The width at which the text breaks into lines, in single precision.
    pub max_width: u32,
    pub color: Color,
    /// The size of the text in logical pixels, in single precision.
    pub size: u32,
    pub line_height: LineHeight,
    pub font: Font,
    pub align_x: Alignment,
    pub align_y: Vertical,
    pub shaping: Shaping,
}

/// A text label as a value: its content as a sequence of characters.
pub struct TextModel {
    pub content: Seq<char>,
    pub position: Point,
    pub max_width: u32,
    pub color: Color,
    pub size: u32,
    pub line_height: LineHeight,
    pub font: Font,
    pub align_x: Alignment,
    pub align_y: Vertical,
    pub shaping: Shaping,
}

impl View for TextLabel {
    type V = TextModel;

    open spec fn view(&self) -> TextModel {
        TextModel {
            content: self.content@,
            position: self.position,
            max_width: self.max_width,
            color: self.color,
            size: self.size,
            line_height: self.line_height,
            font: self.font,
            align_x: self.align_x,
            align_y: self.align_y,
            shaping: self.shaping,
        }
    }
}

impl Color {
    /// The colour as a file holds it: each channel finite.
    pub open spec fn stored(self) -> Color {
        Color {
            r: storable_32(self.r),
            g: storable_32(self.g),
            b: storable_32(self.b),
            a: storable_32(self.a),
        }
    }

    /// The colour as a file holds it.
    pub fn to_stored(self) -> (color: Color)
        ensures
            color == self.stored(),
    {
        Color {
            r: to_storable_32(self.r),
            g: to_storable_32(self.g),
            b: to_storable_32(self.b),
            a: to_storable_32(self.a),
        }
    }
}

impl LineHeight {
    /// The line height as a file holds it: of the same kind, and finite.
    pub open spec fn stored(self) -> LineHeight {
        match self {
            LineHeight::Relative(factor) => LineHeight::Relative(storable_32(factor)),
            LineHeight::Absolute(pixels) => LineHeight::Absolute(storable_32(pixels)),
        }
    }

    /// The line height as a file holds it.
    pub fn to_stored(self) -> (height: LineHeight)
        ensures
            height == self.stored(),
    {
        match self {
            LineHeight::Relative(factor) => LineHeight::Relative(to_storable_32(factor)),
            LineHeight::Absolute(pixels) => LineHeight::Absolute(to_storable_32(pixels)),
        }
    }
}

impl TextModel {
    /// The label as a file holds it: every number finite (an infinity or a
    /// NaN replaced by the largest finite number). Content, font, alignment
    /// and shaping are kept.
    pub open spec fn stored(self) -> TextModel {
        TextModel {
            content: self.content,
            position: Point { x: storable_32(self.position.x), y: storable_32(self.position.y) },
            max_width: storable_32(self.max_width),
            color: self.color.stored(),
            size: storable_32(self.size),
            line_height: self.line_height.stored(),
            font: self.font,
            align_x: self.align_x,
            align_y: self.align_y,
            shaping: self.shaping,
        }
    }

    /// Whether a file can hold the label as it is: every number is finite.
    pub open spec fn is_storable(self) -> bool {
        &&& is_finite_32(self.position.x)
        &&& is_finite_32(self.position.y)
        &&& is_finite_32(self.max_width)
        &&& is_finite_32(self.color.r)
        &&& is_finite_32(self.color.g)
        &&& is_finite_32(self.color.b)
        &&& is_finite_32(self.color.a)
        &&& is_finite_32(self.size)
        &&& match self.line_height {
            LineHeight::Relative(factor) => is_finite_32(factor),
            LineHeight::Absolute(pixels) => is_finite_32(pixels),
        }
    }

    /// The label with `position` in place of its own.
    pub open spec fn at(self, position: Point) -> TextModel {
        TextModel { position, ..self }
    }

    /// The label with `content` in place of its own.
    pub open spec fn with_content(self, content: Seq<char>) -> TextModel {
        TextModel { content, ..self }
    }
}

/// `String::push` of std: the character is appended, and nothing else changes.
pub assume_specification[ String::push ](text: &mut String, ch: char)
    ensures
        final(text)@ == old(text)@.push(ch),
;

/// `String::pop` of std: the last character is removed and returned; an empty
/// string stays empty and gives `None`.
pub assume_specification[ String::pop ](text: &mut String) -> (ch: Option<char>)
    ensures
        old(text)@.len() == 0 ==> ch is None && final(text)@ == old(text)@,
        old(text)@.len() > 0 ==> ch == Some(old(text)@.last()) && final(text)@ == old(
            text,
        )@.drop_last(),
;

impl Clone for TextLabel {
    fn clone(&self) -> (label: Self)
        ensures
            label@ == self@,
    {
        TextLabel {
            content: self.content.clone(),
            position: self.position,
            max_width: self.max_width,
            color: self.color,
            size: self.size,
            line_height: self.line_height,
            font: self.font,
            align_x: self.align_x,
            align_y: self.align_y,
            shaping: self.shaping,
        }
    }
}

impl TextLabel {
    /// An empty label in the style of this one, at `position`.
    pub fn opened(&self, position: Point) -> (label: TextLabel)
        ensures
            label@ == self@.at(position).with_content(Seq::empty()),
    {
        TextLabel {
            content: String::new(),
            position,
            max_width: self.max_width,
            color: self.color,
            size: self.size,
            line_height: self.line_height,
            font: self.font,
            align_x: self.align_x,
            align_y: self.align_y,
            shaping: self.shaping,
        }
    }

    /// Appends a character to the content.
    pub fn push(&mut self, ch: char)
        ensures
            final(self)@ == old(self)@.with_content(old(self)@.content.push(ch)),
    {
        self.content.push(ch);
    }

    /// Removes the last character of the content, if there is one.
    pub fn erase(&mut self)
        ensures
            old(self)@.content.len() == 0 ==> final(self)@ == old(self)@,
            old(self)@.content.len() > 0 ==> final(self)@ == old(self)@.with_content(
                old(self)@.content.drop_last(),
            ),
    {
        let _ = self.content.pop();
    }

    /// The label as a file holds it.
    pub fn to_stored(&self) -> (label: TextLabel)
        ensures
            label@ == self@.stored(),
    {
        TextLabel {
            content: self.content.clone(),
            position: Point {
                x: to_storable_32(self.position.x),
                y: to_storable_32(self.position.y),
            },
            max_width: to_storable_32(self.max_width),
            color: self.color.to_stored(),
            size: to_storable_32(self.size),
            line_height: self.line_height.to_stored(),
            font: self.font,
            align_x: self.align_x,
            align_y: self.align_y,
            shaping: self.shaping,
        }
    }
}

/// What is stored of a label can be stored as it is, so storing twice is
/// storing once; and a label that can be stored as it is, is.
pub proof fn law_stored_text(label: TextModel)
    ensures
        label.stored().is_storable(),
        label.stored().stored() == label.stored(),
        label.is_storable() ==> label.stored() == label,
{
}

} // verus!
