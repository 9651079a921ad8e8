use vstd::prelude::*;
use orbclient::Color;

verus! {

#[verifier::external_type_specification]
pub struct ExColor(Color);

/// The packed value of a color: alpha, red, green and blue from the high byte down.
pub open spec fn argb(r: u8, g: u8, b: u8, a: u8) -> int {
    a * 0x1000000 + r * 0x10000 + g * 0x100 + b
}

/// Relies on orbclient's `Color::rgba`: the channels packed with alpha in the high byte.
pub assume_specification[ Color::rgba ](r: u8, g: u8, b: u8, a: u8) -> (c: Color)
    ensures
        c.data == argb(r, g, b, a),
;

/// Relies on orbclient's `Color::rgb`: the channels packed under an opaque alpha.
pub assume_specification[ Color::rgb ](r: u8, g: u8, b: u8) -> (c: Color)
    ensures
        c.data == argb(r, g, b, 255),
;

/// Relies on orbclient's derived `Clone` of the `Copy` type `Color`: a copy.
pub assume_specification[ <Color as Clone>::clone ](c: &Color) -> (r: Color)
    ensures
        r == *c,
;

/// The name of the font that ships with the toolkit.
pub const DEFAULT_FONT_FAMILY_NAME: &'static str = "Roboto-Medium";

/// Top-left corner of a widget, in pixels, relative to its parent.
#[derive(Clone, Copy, Debug, Default, PartialEq, Eq, Structural)]
pub struct PositionComponent {
    pub x: u32,
    pub y: u32,
}

/// Size of a widget's content box, in pixels.
#[derive(Clone, Copy, Debug, Default, PartialEq, Eq, Structural)]
pub struct SizeComponent {
    pub width: usize,
    pub height: usize,
}

/// Geometry of the host window, kept in step with it on resize.
#[derive(Clone, Debug, Default)]
pub struct WindowComponent {
    pub id: u32,
    pub title: String,
    pub x: i32,
    pub y: i32,
    pub width: u32,
    pub height: u32,
}

/// A rectangle border around a widget; widths and radius in whole pixels.
#[derive(Clone, Copy)]
pub struct Border {
    pub color: Color,
    pub left: u32,
    pub top: u32,
    pub right: u32,
    pub bottom: u32,
    pub radius: u32,
}

/// The outline a widget is painted with.
#[derive(Clone, Copy, Debug, PartialEq, Eq, Structural)]
pub enum Shape {
    Circle(u32),
    Rectangle,
}

/// How a widget is painted: its shape, an optional fill and an optional border.
#[derive(Clone, Copy)]
pub struct RenderComponent {
    pub shape: Shape,
    pub background: Option<Color>,
    pub border: Option<Border>,
}

/// Text drawn at a widget's position.
#[derive(Clone)]
pub struct TextComponent {
    pub font_family: String,
    pub font_size: usize,
    pub text: String,
    pub text_color: Color,
}

impl Default for TextComponent {
    fn default() -> (r: TextComponent)
        ensures
            r.font_family@ == DEFAULT_FONT_FAMILY_NAME@,
            r.font_size == 12,
            r.text@.len() == 0,
            r.text_color.data == argb(0, 0, 0, 255),
    {
        TextComponent {
            font_family: DEFAULT_FONT_FAMILY_NAME.to_owned(),
            font_size: 12,
            text: String::new(),
            text_color: Color::rgba(0, 0, 0, 255),
        }
    }
}

impl Border {
    pub fn new() -> (r: BorderBuilder)
        ensures
            r.spec_build() == Border::spec_default(),
    {
        BorderBuilder::new()
    }

    /// Black, one pixel wide on every side, square corners.
    pub open spec fn spec_default() -> Border {
        Border {
            color: Color { data: argb(0, 0, 0, 255) as u32 },
            left: 1,
            top: 1,
            right: 1,
            bottom: 1,
            radius: 0,
        }
    }
}

impl Default for Border {
    fn default() -> (r: Border)
        ensures
            r == Border::spec_default(),
    {
        Border { color: Color::rgba(0, 0, 0, 255), left: 1, top: 1, right: 1, bottom: 1, radius: 0 }
    }
}

/// Builds a `Border` one property at a time.
pub struct BorderBuilder {
    color: Color,
    left: u32,
    top: u32,
    right: u32,
    bottom: u32,
    radius: u32,
}

impl BorderBuilder {
    /// The border that `build` gives.
    pub closed spec fn spec_build(self) -> Border {
        Border {
            color: self.color,
            left: self.left,
            top: self.top,
            right: self.right,
            bottom: self.bottom,
            radius: self.radius,
        }
    }

    pub fn new() -> (r: BorderBuilder)
        ensures
            r.spec_build() == Border::spec_default(),
    {
        BorderBuilder {
            color: Color::rgba(0, 0, 0, 255),
            left: 1,
            top: 1,
            right: 1,
            bottom: 1,
            radius: 0,
        }
    }

    pub fn color(self, color: Color) -> (r: BorderBuilder)
        ensures
            r.spec_build() == (Border { color, ..self.spec_build() }),
    {
        BorderBuilder { color, ..self }
    }

    pub fn left(self, width: u32) -> (r: BorderBuilder)
        ensures
            r.spec_build() == (Border { left: width, ..self.spec_build() }),
    {
        BorderBuilder { left: width, ..self }
    }

    pub fn top(self, width: u32) -> (r: BorderBuilder)
        ensures
            r.spec_build() == (Border { top: width, ..self.spec_build() }),
    {
        BorderBuilder { top: width, ..self }
    }

    pub fn right(self, width: u32) -> (r: BorderBuilder)
        ensures
            r.spec_build() == (Border { right: width, ..self.spec_build() }),
    {
        BorderBuilder { right: width, ..self }
    }

    pub fn bottom(self, width: u32) -> (r: BorderBuilder)
        ensures
            r.spec_build() == (Border { bottom: width, ..self.spec_build() }),
    {
        BorderBuilder { bottom: width, ..self }
    }

    /// The same width on all four sides.
    pub fn width(self, width: u32) -> (r: BorderBuilder)
        ensures
            r.spec_build() == (Border {
                left: width,
                top: width,
                right: width,
                bottom: width,
                ..self.spec_build()
            }),
    {
        BorderBuilder { left: width, top: width, right: width, bottom: width, ..self }
    }

    pub fn radius(self, radius: u32) -> (r: BorderBuilder)
        ensures
            r.spec_build() == (Border { radius, ..self.spec_build() }),
    {
        BorderBuilder { radius, ..self }
    }

    pub fn build(self) -> (r: Border)
        ensures
            r == self.spec_build(),
    {
        Border {
            color: self.color,
            left: self.left,
            top: self.top,
            right: self.right,
            bottom: self.bottom,
            radius: self.radius,
        }
    }
}

} // verus!
