//! The drawable primitives, and the change of colour that a painter applies
//! to each before it is stored.

use vstd::prelude::*;
use crate::color::Color32;
use crate::geom::{Pos2, Rangei, Rect, Vec2};
use crate::num::{clamp, clamp_int, scale, scale_int, ONE};

verus! {

/// The outline of a shape: a width in layout units and a colour.
#[derive(Clone, Copy, Debug, PartialEq, Eq, Structural)]
pub struct Stroke {
    pub width: i32,
    pub color: Color32,
}

impl Stroke {
    /// The stroke that draws nothing.
    pub open spec fn spec_none() -> Stroke {
        Stroke { width: 0, color: Color32::spec_transparent() }
    }

    /// The stroke that draws nothing.
    #[verifier::when_used_as_spec(spec_none)]
    pub fn none() -> (s: Stroke)
        ensures
            s == Stroke::spec_none(),
    {
        Stroke { width: 0, color: Color32::transparent() }
    }

    /// The stroke of the given width and colour.
    pub open spec fn spec_new(width: i32, color: Color32) -> Stroke {
        Stroke { width, color }
    }

    /// The stroke of the given width and colour.
    #[verifier::when_used_as_spec(spec_new)]
    pub fn new(width: i32, color: Color32) -> (s: Stroke)
        ensures
            s == Stroke::spec_new(width, color),
    {
        Stroke { width, color }
    }
}

/// On which side of a rectangle's edge its stroke is drawn.
#[derive(Clone, Copy, Debug, PartialEq, Eq, Structural)]
pub enum StrokeKind {
    Inside,
    Middle,
    Outside,
}

/// A handle to a block of text that the font service has laid out. The text
/// itself stays with the service; the handle carries what layout needs.
#[derive(Clone, Copy, Debug, PartialEq, Eq, Structural)]
pub struct Galley {
    /// The service's name for the laid-out text.
    pub handle: u64,
    /// The extent of the laid-out text.
    pub size: Vec2,
    /// Whether the text has no section at all.
    pub empty: bool,
}

impl Galley {
    /// Whether there is nothing to paint.
    pub open spec fn spec_is_empty(&self) -> bool {
        self.empty
    }

    /// Whether there is nothing to paint.
    #[verifier::when_used_as_spec(spec_is_empty)]
    pub fn is_empty(&self) -> (r: bool)
        ensures
            r == self.empty,
    {
        self.empty
    }

    /// The extent of the laid-out text.
    pub open spec fn spec_size(&self) -> Vec2 {
        self.size
    }

    /// The extent of the laid-out text.
    #[verifier::when_used_as_spec(spec_size)]
    pub fn size(&self) -> (r: Vec2)
        ensures
            r == self.size,
    {
        self.size
    }
}

/// A change applied to every colour of a shape.
#[derive(Clone, Copy, Debug, PartialEq, Eq, Structural)]
pub enum ColorAdjust {
    /// Fade halfway towards a colour.
    TintTowards(Color32),
    /// Multiply by a fixed-point opacity.
    Opacity(i32),
}

impl ColorAdjust {
    /// The adjusted colour. The placeholder is never changed.
    pub open spec fn spec_apply(self, color: Color32) -> Color32 {
        match self {
            ColorAdjust::TintTowards(target) => color.spec_tint_towards(target),
            ColorAdjust::Opacity(opacity) => color.spec_with_opacity(opacity),
        }
    }

    /// The adjusted colour. The placeholder is never changed.
    #[verifier::when_used_as_spec(spec_apply)]
    pub fn apply(self, color: Color32) -> (out: Color32)
        ensures
            out == self.spec_apply(color),
            color == Color32::spec_placeholder() ==> out == color,
    {
        match self {
            ColorAdjust::TintTowards(target) => color.tint_towards(target),
            ColorAdjust::Opacity(opacity) => color.with_opacity(opacity),
        }
    }

    /// The stroke with its colour adjusted.
    pub open spec fn spec_apply_stroke(self, stroke: Stroke) -> Stroke {
        Stroke { width: stroke.width, color: self.spec_apply(stroke.color) }
    }

    /// The stroke with its colour adjusted.
    #[verifier::when_used_as_spec(spec_apply_stroke)]
    pub fn apply_stroke(self, stroke: Stroke) -> (out: Stroke)
        ensures
            out == self.spec_apply_stroke(stroke),
    {
        Stroke { width: stroke.width, color: self.apply(stroke.color) }
    }

    /// The optional colour adjusted where it is present.
    pub open spec fn spec_apply_option(self, color: Option<Color32>) -> Option<Color32> {
        match color {
            Some(c) => Some(self.spec_apply(c)),
            None => None,
        }
    }

    /// The optional colour adjusted where it is present.
    #[verifier::when_used_as_spec(spec_apply_option)]
    pub fn apply_option(self, color: Option<Color32>) -> (out: Option<Color32>)
        ensures
            out == self.spec_apply_option(color),
    {
        match color {
            Some(c) => Some(self.apply(c)),
            None => None,
        }
    }
}

/// What is still to be done to the colours that a laid-out text carries
/// itself. Those stay with the font service, so a change of colour cannot
/// reach them here: it is noted instead, and the rasterizer fades them
/// towards `fade_to_color`, if that is set, and then multiplies them by
/// `opacity_factor`. The placeholder is exempt there as it is here.
#[derive(Clone, Copy, Debug, PartialEq, Eq, Structural)]
pub struct GalleyColors {
    pub fade_to_color: Option<Color32>,
    pub opacity_factor: i32,
}

impl GalleyColors {
    /// Nothing is to be done.
    pub open spec fn spec_unchanged() -> GalleyColors {
        GalleyColors { fade_to_color: None, opacity_factor: ONE }
    }

    /// Nothing is to be done.
    #[verifier::when_used_as_spec(spec_unchanged)]
    pub fn unchanged() -> (c: GalleyColors)
        ensures
            c == GalleyColors::spec_unchanged(),
    {
        GalleyColors { fade_to_color: None, opacity_factor: ONE }
    }

    /// What is to be done after one more change: a fade replaces the fade
    /// noted before, and an opacity, brought into `[0, ONE]`, multiplies the
    /// one noted before.
    pub open spec fn spec_adjusted(self, how: ColorAdjust) -> GalleyColors {
        match how {
            ColorAdjust::TintTowards(target) => GalleyColors { fade_to_color: Some(target), ..self },
            ColorAdjust::Opacity(opacity) => GalleyColors {
                opacity_factor: scale_int(
                    self.opacity_factor as int,
                    clamp_int(opacity as int, 0, ONE as int),
                ) as i32,
                ..self
            },
        }
    }

    /// What is to be done after one more change.
    #[verifier::when_used_as_spec(spec_adjusted)]
    pub fn adjusted(self, how: ColorAdjust) -> (c: GalleyColors)
        ensures
            c == self.spec_adjusted(how),
    {
        match how {
            ColorAdjust::TintTowards(target) => GalleyColors { fade_to_color: Some(target), ..self },
            ColorAdjust::Opacity(opacity) => GalleyColors {
                opacity_factor: scale(self.opacity_factor, clamp(opacity, 0, ONE)),
                ..self
            },
        }
    }
}

/// A drawable primitive.
#[derive(Debug, PartialEq, Eq)]
#[allow(inconsistent_fields)]
pub enum Shape {
    /// Paints nothing; it keeps a slot in a paint list.
    Noop,
    /// A straight line between two points.
    LineSegment { points: [Pos2; 2], stroke: Stroke },
    /// A line through many points, open or closed.
    Path { points: Vec<Pos2>, closed: bool, fill: Color32, stroke: Stroke },
    /// A circle.
    Circle { center: Pos2, radius: i32, fill: Color32, stroke: Stroke },
    /// A rectangle, its corners rounded by `corner_radius`.
    Rect { rect: Rect, corner_radius: i32, fill: Color32, stroke: Stroke, stroke_kind: StrokeKind },
    /// Laid-out text. Where `override_text_color` is set it replaces every
    /// colour of the text; else `fallback_color` fills in for the parts that
    /// the text left uncoloured. `galley_colors` says what is still to be
    /// done to the colours that the text carries itself.
    Text {
        pos: Pos2,
        galley: Galley,
        underline: Stroke,
        fallback_color: Color32,
        override_text_color: Option<Color32>,
        galley_colors: GalleyColors,
    },
    /// A textured rectangle. `uv` is the part of the texture shown, in
    /// fixed-point texture coordinates; `tint` multiplies the texture.
    Image { texture_id: u64, rect: Rect, uv: Rect, tint: Color32 },
}

impl Shape {
    /// The colours that the shape is painted with, in a fixed order.
    pub open spec fn colors(self) -> Seq<Color32> {
        match self {
            Shape::Noop => seq![],
            Shape::LineSegment { points, stroke } => seq![stroke.color],
            Shape::Path { points, closed, fill, stroke } => seq![fill, stroke.color],
            Shape::Circle { center, radius, fill, stroke } => seq![fill, stroke.color],
            Shape::Rect { rect, corner_radius, fill, stroke, stroke_kind } => seq![fill, stroke.color],
            Shape::Text { pos, galley, underline, fallback_color, override_text_color, galley_colors } => {
                match override_text_color {
                    Some(c) => seq![underline.color, fallback_color, c],
                    None => seq![underline.color, fallback_color],
                }
            },
            Shape::Image { texture_id, rect, uv, tint } => seq![tint],
        }
    }

    /// The same shape with every colour adjusted; nothing else changes.
    pub open spec fn spec_adjust_colors(self, how: ColorAdjust) -> Shape {
        match self {
            Shape::Noop => Shape::Noop,
            Shape::LineSegment { points, stroke } => Shape::LineSegment {
                points,
                stroke: how.spec_apply_stroke(stroke),
            },
            Shape::Path { points, closed, fill, stroke } => Shape::Path {
                points,
                closed,
                fill: how.spec_apply(fill),
                stroke: how.spec_apply_stroke(stroke),
            },
            Shape::Circle { center, radius, fill, stroke } => Shape::Circle {
                center,
                radius,
                fill: how.spec_apply(fill),
                stroke: how.spec_apply_stroke(stroke),
            },
            Shape::Rect { rect, corner_radius, fill, stroke, stroke_kind } => Shape::Rect {
                rect,
                corner_radius,
                fill: how.spec_apply(fill),
                stroke: how.spec_apply_stroke(stroke),
                stroke_kind,
            },
            Shape::Text {
                pos,
                galley,
                underline,
                fallback_color,
                override_text_color,
                galley_colors,
            } => Shape::Text {
                pos,
                galley,
                underline: how.spec_apply_stroke(underline),
                fallback_color: how.spec_apply(fallback_color),
                override_text_color: how.spec_apply_option(override_text_color),
                galley_colors: galley_colors.spec_adjusted(how),
            },
            Shape::Image { texture_id, rect, uv, tint } => Shape::Image {
                texture_id,
                rect,
                uv,
                tint: how.spec_apply(tint),
            },
        }
    }

    /// The same shape with every colour adjusted; nothing else changes.
    pub fn adjust_colors(self, how: ColorAdjust) -> (out: Shape)
        ensures
            out == self.spec_adjust_colors(how),
    {
        match self {
            Shape::Noop => Shape::Noop,
            Shape::LineSegment { points, stroke } => Shape::LineSegment {
                points,
                stroke: how.apply_stroke(stroke),
            },
            Shape::Path { points, closed, fill, stroke } => Shape::Path {
                points,
                closed,
                fill: how.apply(fill),
                stroke: how.apply_stroke(stroke),
            },
            Shape::Circle { center, radius, fill, stroke } => Shape::Circle {
                center,
                radius,
                fill: how.apply(fill),
                stroke: how.apply_stroke(stroke),
            },
            Shape::Rect { rect, corner_radius, fill, stroke, stroke_kind } => Shape::Rect {
                rect,
                corner_radius,
                fill: how.apply(fill),
                stroke: how.apply_stroke(stroke),
                stroke_kind,
            },
            Shape::Text {
                pos,
                galley,
                underline,
                fallback_color,
                override_text_color,
                galley_colors,
            } => Shape::Text {
                pos,
                galley,
                underline: how.apply_stroke(underline),
                fallback_color: how.apply(fallback_color),
                override_text_color: how.apply_option(override_text_color),
                galley_colors: galley_colors.adjusted(how),
            },
            Shape::Image { texture_id, rect, uv, tint } => Shape::Image {
                texture_id,
                rect,
                uv,
                tint: how.apply(tint),
            },
        }
    }

    /// Adjusting a shape adjusts each of its colours in place, so a colour
    /// that is the placeholder stays the placeholder whatever the change.
    pub proof fn lemma_adjust_keeps_placeholder(self, how: ColorAdjust, i: int)
        requires
            0 <= i < self.colors().len(),
        ensures
            self.spec_adjust_colors(how).colors().len() == self.colors().len(),
            self.spec_adjust_colors(how).colors()[i] == how.spec_apply(self.colors()[i]),
            self.colors()[i] == Color32::spec_placeholder() ==> self.spec_adjust_colors(how).colors()[i]
                == Color32::spec_placeholder(),
    {
    }

    /// A straight line between two points.
    pub open spec fn spec_line_segment(points: [Pos2; 2], stroke: Stroke) -> Shape {
        Shape::LineSegment { points, stroke }
    }

    /// A straight line between two points.
    #[verifier::when_used_as_spec(spec_line_segment)]
    pub fn line_segment(points: [Pos2; 2], stroke: Stroke) -> (s: Shape)
        ensures
            s == Shape::spec_line_segment(points, stroke),
    {
        Shape::LineSegment { points, stroke }
    }

    /// An open line through `points`, not filled.
    pub open spec fn spec_line(points: Vec<Pos2>, stroke: Stroke) -> Shape {
        Shape::Path { points, closed: false, fill: Color32::spec_transparent(), stroke }
    }

    /// An open line through `points`, not filled.
    #[verifier::when_used_as_spec(spec_line)]
    pub fn line(points: Vec<Pos2>, stroke: Stroke) -> (s: Shape)
        ensures
            s == Shape::spec_line(points, stroke),
    {
        Shape::Path { points, closed: false, fill: Color32::transparent(), stroke }
    }

    /// A filled circle without outline.
    pub open spec fn spec_circle_filled(center: Pos2, radius: i32, fill: Color32) -> Shape {
        Shape::Circle { center, radius, fill, stroke: Stroke::spec_none() }
    }

    /// A filled circle without outline.
    #[verifier::when_used_as_spec(spec_circle_filled)]
    pub fn circle_filled(center: Pos2, radius: i32, fill: Color32) -> (s: Shape)
        ensures
            s == Shape::spec_circle_filled(center, radius, fill),
    {
        Shape::Circle { center, radius, fill, stroke: Stroke::none() }
    }

    /// The outline of a circle.
    pub open spec fn spec_circle_stroke(center: Pos2, radius: i32, stroke: Stroke) -> Shape {
        Shape::Circle { center, radius, fill: Color32::spec_transparent(), stroke }
    }

    /// The outline of a circle.
    #[verifier::when_used_as_spec(spec_circle_stroke)]
    pub fn circle_stroke(center: Pos2, radius: i32, stroke: Stroke) -> (s: Shape)
        ensures
            s == Shape::spec_circle_stroke(center, radius, stroke),
    {
        Shape::Circle { center, radius, fill: Color32::transparent(), stroke }
    }

    /// A filled rectangle without outline.
    pub open spec fn spec_rect_filled(rect: Rect, corner_radius: i32, fill: Color32) -> Shape {
        Shape::Rect {
            rect,
            corner_radius,
            fill,
            stroke: Stroke::spec_none(),
            stroke_kind: StrokeKind::Outside,
        }
    }

    /// A filled rectangle without outline.
    #[verifier::when_used_as_spec(spec_rect_filled)]
    pub fn rect_filled(rect: Rect, corner_radius: i32, fill: Color32) -> (s: Shape)
        ensures
            s == Shape::spec_rect_filled(rect, corner_radius, fill),
    {
        Shape::Rect { rect, corner_radius, fill, stroke: Stroke::none(), stroke_kind: StrokeKind::Outside }
    }

    /// The outline of a rectangle.
    pub open spec fn spec_rect_stroke(
        rect: Rect,
        corner_radius: i32,
        stroke: Stroke,
        stroke_kind: StrokeKind,
    ) -> Shape {
        Shape::Rect { rect, corner_radius, fill: Color32::spec_transparent(), stroke, stroke_kind }
    }

    /// The outline of a rectangle.
    #[verifier::when_used_as_spec(spec_rect_stroke)]
    pub fn rect_stroke(rect: Rect, corner_radius: i32, stroke: Stroke, stroke_kind: StrokeKind) -> (s:
        Shape)
        ensures
            s == Shape::spec_rect_stroke(rect, corner_radius, stroke, stroke_kind),
    {
        Shape::Rect { rect, corner_radius, fill: Color32::transparent(), stroke, stroke_kind }
    }

    /// Text whose uncoloured parts take `fallback_color`.
    pub open spec fn spec_galley(pos: Pos2, galley: Galley, fallback_color: Color32) -> Shape {
        Shape::Text {
            pos,
            galley,
            underline: Stroke::spec_none(),
            fallback_color,
            override_text_color: None,
            galley_colors: GalleyColors::spec_unchanged(),
        }
    }

    /// Text whose uncoloured parts take `fallback_color`.
    #[verifier::when_used_as_spec(spec_galley)]
    pub fn galley(pos: Pos2, galley: Galley, fallback_color: Color32) -> (s: Shape)
        ensures
            s == Shape::spec_galley(pos, galley, fallback_color),
    {
        Shape::Text {
            pos,
            galley,
            underline: Stroke::none(),
            fallback_color,
            override_text_color: None,
            galley_colors: GalleyColors::unchanged(),
        }
    }

    /// Text painted in `text_color` throughout.
    pub open spec fn spec_galley_with_override_text_color(
        pos: Pos2,
        galley: Galley,
        text_color: Color32,
    ) -> Shape {
        Shape::Text {
            pos,
            galley,
            underline: Stroke::spec_none(),
            fallback_color: text_color,
            override_text_color: Some(text_color),
            galley_colors: GalleyColors::spec_unchanged(),
        }
    }

    /// Text painted in `text_color` throughout.
    #[verifier::when_used_as_spec(spec_galley_with_override_text_color)]
    pub fn galley_with_override_text_color(pos: Pos2, galley: Galley, text_color: Color32) -> (s: Shape)
        ensures
            s == Shape::spec_galley_with_override_text_color(pos, galley, text_color),
    {
        Shape::Text {
            pos,
            galley,
            underline: Stroke::none(),
            fallback_color: text_color,
            override_text_color: Some(text_color),
            galley_colors: GalleyColors::unchanged(),
        }
    }
}

/// The horizontal line at height `y` across `x`.
pub open spec fn hline_spec(x: Rangei, y: i32, stroke: Stroke) -> Shape {
    Shape::LineSegment { points: [Pos2 { x: x.min, y }, Pos2 { x: x.max, y }], stroke }
}

/// The horizontal line at height `y` across `x`.
pub fn hline(x: Rangei, y: i32, stroke: Stroke) -> (s: Shape)
    ensures
        s == hline_spec(x, y, stroke),
{
    Shape::LineSegment { points: [Pos2 { x: x.min, y }, Pos2 { x: x.max, y }], stroke }
}

/// The vertical line at `x` down `y`.
pub open spec fn vline_spec(x: i32, y: Rangei, stroke: Stroke) -> Shape {
    Shape::LineSegment { points: [Pos2 { x, y: y.min }, Pos2 { x, y: y.max }], stroke }
}

/// The vertical line at `x` down `y`.
pub fn vline(x: i32, y: Rangei, stroke: Stroke) -> (s: Shape)
    ensures
        s == vline_spec(x, y, stroke),
{
    Shape::LineSegment { points: [Pos2 { x, y: y.min }, Pos2 { x, y: y.max }], stroke }
}

} // verus!
