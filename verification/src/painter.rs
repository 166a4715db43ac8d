//! The painter: the one way by which shapes reach the paint lists. It fades
//! and dims each shape as it is configured, and clips it.

use vstd::prelude::*;
use crate::color::Color32;
use crate::context::{PassContext, PassView};
use crate::geom::{Align2, Pos2, Rangei, Rect, Vec2};
use crate::layers::{clipped, shapes_of, ClippedShape, GraphicLayers, LayerId, ShapeIdx};
use crate::num::{clamp, clamp_int, div_floor, round_int, round_to_grid, sat, sat_add, sat_sub,
    sat_wide, scale, scale_int, ONE, UNITS_PER_POINT};
use crate::shape::{hline, hline_spec, vline, vline_spec, ColorAdjust, Galley, Shape, Stroke,
    StrokeKind};

verus! {

/// The cosine of a tenth of a turn, in fixed point.
pub const BARB_COS: i32 = 53020;

/// The sine of a tenth of a turn, in fixed point.
pub const BARB_SIN: i32 = 38521;

/// A quarter of `v` turned by a tenth of a turn, clockwise on screen or
/// against: the offset from an arrow's tip back to the end of one barb.
pub open spec fn barb_spec(v: Vec2, clockwise: bool) -> Vec2 {
    if clockwise {
        Vec2 {
            x: sat((BARB_COS * v.x - BARB_SIN * v.y) / (4 * ONE)) as i32,
            y: sat((BARB_SIN * v.x + BARB_COS * v.y) / (4 * ONE)) as i32,
        }
    } else {
        Vec2 {
            x: sat((BARB_COS * v.x + BARB_SIN * v.y) / (4 * ONE)) as i32,
            y: sat((BARB_COS * v.y - BARB_SIN * v.x) / (4 * ONE)) as i32,
        }
    }
}

/// A quarter of `v` turned by a tenth of a turn.
pub fn barb(v: Vec2, clockwise: bool) -> (r: Vec2)
    ensures
        r == barb_spec(v, clockwise),
{
    let x: i128 = v.x as i128;
    let y: i128 = v.y as i128;
    let c: i128 = BARB_COS as i128;
    let s: i128 = BARB_SIN as i128;
    let d: i128 = 4 * (ONE as i128);
    if clockwise {
        Vec2 { x: sat_wide(div_floor(c * x - s * y, d)), y: sat_wide(div_floor(s * x + c * y, d)) }
    } else {
        Vec2 { x: sat_wide(div_floor(c * x + s * y, d)), y: sat_wide(div_floor(c * y - s * x, d)) }
    }
}

/// The centre of the device pixel nearest to `point`.
pub open spec fn pixel_center_spec(point: i32, pixel_size: i32) -> i32 {
    if pixel_size <= 1 {
        point
    } else {
        sat(round_int(sat(point - pixel_size as int / 2), pixel_size as int) + pixel_size as int / 2) as i32
    }
}

impl PassView {
    /// The state after a shape was appended to a layer.
    pub open spec fn paint(self, layer: LayerId, clip_rect: Rect, shape: Shape) -> PassView {
        self.with_graphics(
            self.graphics.insert(
                layer,
                shapes_of(self.graphics, layer).push(ClippedShape { clip_rect, shape }),
            ),
        )
    }

    /// The state after shapes were appended to a layer.
    pub open spec fn paint_all(self, layer: LayerId, clip_rect: Rect, shapes: Seq<Shape>) -> PassView {
        self.with_graphics(
            self.graphics.insert(layer, shapes_of(self.graphics, layer) + clipped(clip_rect, shapes)),
        )
    }

    /// The state after the shape at `idx` of a layer was replaced.
    pub open spec fn repaint(self, layer: LayerId, idx: ShapeIdx, clip_rect: Rect, shape: Shape) -> PassView {
        self.with_graphics(
            self.graphics.insert(
                layer,
                GraphicLayers::replaced(shapes_of(self.graphics, layer), idx, clip_rect, shape),
            ),
        )
    }
}

/// Paints to one layer, inside one clip rectangle. A painter is a value:
/// copies paint to the same lists.
#[derive(Clone, Copy, Debug, PartialEq, Eq, Structural)]
pub struct Painter {
    /// The size of a device pixel in layout units, for quick access.
    pub pixel_size: i32,
    /// Where shapes go.
    pub layer_id: LayerId,
    /// Nothing painted is shown outside of this.
    pub clip_rect: Rect,
    /// If set, every colour is faded towards this one.
    pub fade_to_color: Option<Color32>,
    /// Every colour is multiplied by this fixed-point factor in `[0, ONE]`.
    pub opacity_factor: i32,
}

impl Painter {
    /// The painter for `layer_id`, clipped to `clip_rect`, at full opacity.
    pub open spec fn spec_new(ctx: PassView, layer_id: LayerId, clip_rect: Rect) -> Painter {
        Painter {
            pixel_size: ctx.pixel_size,
            layer_id,
            clip_rect,
            fade_to_color: None,
            opacity_factor: ONE,
        }
    }

    /// The painter for `layer_id`, clipped to `clip_rect`, at full opacity.
    pub fn new(ctx: &PassContext, layer_id: LayerId, clip_rect: Rect) -> (p: Painter)
        ensures
            p == Painter::spec_new(ctx@, layer_id, clip_rect),
    {
        Painter { pixel_size: ctx.pixel_size(), layer_id, clip_rect, fade_to_color: None, opacity_factor: ONE }
    }

    /// The same painter for another layer.
    pub open spec fn spec_with_layer_id(self, layer_id: LayerId) -> Painter {
        Painter { layer_id, ..self }
    }

    /// The same painter for another layer.
    #[must_use]
    #[verifier::when_used_as_spec(spec_with_layer_id)]
    pub fn with_layer_id(self, layer_id: LayerId) -> (p: Painter)
        ensures
            p == self.spec_with_layer_id(layer_id),
    {
        let mut p = self;
        p.layer_id = layer_id;
        p
    }

    /// A painter for the part of this painter's region that lies in `rect`:
    /// its clip rectangle is the intersection of the two.
    pub open spec fn spec_with_clip_rect(&self, rect: Rect) -> Painter {
        Painter { clip_rect: rect.spec_intersect(self.clip_rect), ..*self }
    }

    /// A painter for the part of this painter's region that lies in `rect`:
    /// its clip rectangle is the intersection of the two.
    #[verifier::when_used_as_spec(spec_with_clip_rect)]
    pub fn with_clip_rect(&self, rect: Rect) -> (p: Painter)
        ensures
            p == self.spec_with_clip_rect(rect),
            self.clip_rect.spec_intersect(p.clip_rect) == p.clip_rect,
    {
        let mut p = *self;
        p.clip_rect = rect.intersect(self.clip_rect);
        p
    }

    /// Changes the layer that is painted to.
    pub fn set_layer_id(&mut self, layer_id: LayerId)
        ensures
            *final(self) == old(self).spec_with_layer_id(layer_id),
    {
        self.layer_id = layer_id;
    }

    /// Sets or clears the colour that everything is faded towards.
    pub fn set_fade_to_color(&mut self, fade_to_color: Option<Color32>)
        ensures
            *final(self) == (Painter { fade_to_color, ..*old(self) }),
    {
        self.fade_to_color = fade_to_color;
    }

    /// Sets the opacity of everything painted from now on: `0` is invisible,
    /// `ONE` is opaque, and values outside are brought into that range.
    pub fn set_opacity(&mut self, opacity: i32)
        ensures
            *final(self) == (Painter {
                opacity_factor: clamp_int(opacity as int, 0, ONE as int) as i32,
                ..*old(self)
            }),
            0 <= final(self).opacity_factor <= ONE,
    {
        self.opacity_factor = clamp(opacity, 0, ONE);
    }

    /// Multiplies the opacity by a factor, which is brought into `[0, ONE]`
    /// first, so that nested scopes compose. An opacity that lies in
    /// `[0, ONE]` stays there and does not grow.
    pub fn multiply_opacity(&mut self, opacity: i32)
        ensures
            *final(self) == (Painter {
                opacity_factor: scale_int(
                    old(self).opacity_factor as int,
                    clamp_int(opacity as int, 0, ONE as int),
                ) as i32,
                ..*old(self)
            }),
            0 <= old(self).opacity_factor <= ONE ==> 0 <= final(self).opacity_factor <= old(
                self,
            ).opacity_factor,
    {
        proof {
            let before = self.opacity_factor as int;
            let by = clamp_int(opacity as int, 0, ONE as int);
            assert(0 <= before <= 65536 ==> 0 <= (before * by) / 65536 <= before) by (nonlinear_arith)
                requires
                    0 <= by <= 65536,
            ;
        }
        self.opacity_factor = scale(self.opacity_factor, clamp(opacity, 0, ONE));
    }

    /// The current opacity.
    pub fn opacity(&self) -> (r: i32)
        ensures
            r == self.opacity_factor,
    {
        self.opacity_factor
    }

    /// Whether anything painted can show up: not when the painter is blank,
    /// which it is when it fades to full transparency or has no opacity at
    /// all, nor when the pass will be thrown away.
    pub open spec fn spec_is_visible(&self, ctx: PassView) -> bool {
        !self.spec_is_blank() && !ctx.will_discard
    }

    /// Whether anything painted can show up: not when the painter is blank,
    /// which it is when it fades to full transparency or has no opacity at
    /// all, nor when the pass will be thrown away.
    pub fn is_visible(&self, ctx: &PassContext) -> (r: bool)
        ensures
            r == self.spec_is_visible(ctx@),
            r == (!self.spec_is_blank() && !ctx@.will_discard),
    {
        !self.is_blank() && !ctx.will_discard()
    }

    /// Makes everything painted from now on invisible.
    pub fn set_invisible(&mut self)
        ensures
            *final(self) == (Painter {
                fade_to_color: Some(Color32::spec_transparent()),
                ..*old(self)
            }),
    {
        self.fade_to_color = Some(Color32::transparent());
    }

    /// The size of a device pixel in layout units.
    pub fn pixel_size(&self) -> (r: i32)
        ensures
            r == self.pixel_size,
    {
        self.pixel_size
    }

    /// The number of device pixels to the logical point, in fixed point,
    /// rounded down; `ONE` where the pixel size is not positive.
    pub open spec fn spec_pixels_per_point(&self) -> i32 {
        if self.pixel_size <= 0 {
            ONE
        } else {
            ((UNITS_PER_POINT * ONE) / self.pixel_size as int) as i32
        }
    }

    /// The number of device pixels to the logical point, in fixed point,
    /// rounded down; `ONE` where the pixel size is not positive.
    pub fn pixels_per_point(&self) -> (r: i32)
        ensures
            r == self.spec_pixels_per_point(),
    {
        if self.pixel_size <= 0 {
            ONE
        } else {
            (UNITS_PER_POINT * ONE) / self.pixel_size
        }
    }

    /// The layer that is painted to.
    pub fn layer_id(&self) -> (r: LayerId)
        ensures
            r == self.layer_id,
    {
        self.layer_id
    }

    /// Nothing painted is shown outside of this rectangle.
    pub fn clip_rect(&self) -> (r: Rect)
        ensures
            r == self.clip_rect,
    {
        self.clip_rect
    }

    /// Narrows the clip rectangle to its intersection with `new_clip_rect`.
    pub fn shrink_clip_rect(&mut self, new_clip_rect: Rect)
        ensures
            *final(self) == (Painter {
                clip_rect: old(self).clip_rect.spec_intersect(new_clip_rect),
                ..*old(self)
            }),
            old(self).clip_rect.spec_intersect(final(self).clip_rect) == final(self).clip_rect,
    {
        self.clip_rect = self.clip_rect.intersect(new_clip_rect);
    }

    /// Replaces the clip rectangle. Growing it lets shapes show where the
    /// parent region would have hidden them: shrink it where in doubt.
    pub fn set_clip_rect(&mut self, clip_rect: Rect)
        ensures
            *final(self) == (Painter { clip_rect, ..*old(self) }),
    {
        self.clip_rect = clip_rect;
    }

    /// The centre of the device pixel nearest to `point`: the place for a
    /// line that is an odd number of pixels wide.
    pub fn round_to_pixel_center(&self, point: i32) -> (r: i32)
        ensures
            r == pixel_center_spec(point, self.pixel_size),
    {
        if self.pixel_size <= 1 {
            point
        } else {
            let half: i32 = self.pixel_size / 2;
            sat_add(round_to_grid(sat_sub(point, half), self.pixel_size), half)
        }
    }

    /// Whether every shape is stored as a no-op.
    pub open spec fn spec_is_blank(&self) -> bool {
        self.fade_to_color == Some(Color32::spec_transparent()) || self.opacity_factor == 0
    }

    /// Whether every shape is stored as a no-op.
    fn is_blank(&self) -> (r: bool)
        ensures
            r == self.spec_is_blank(),
    {
        let hidden = match self.fade_to_color {
            Some(c) => c == Color32::transparent(),
            None => false,
        };
        hidden || self.opacity_factor == 0
    }

    /// The shape as it is stored by a painter that is not blank: faded
    /// first, if a fade colour is set, then dimmed, if the opacity is below
    /// `ONE`. Placeholder colours pass through both steps.
    pub open spec fn spec_transform_shape(&self, shape: Shape) -> Shape {
        let faded = match self.fade_to_color {
            Some(target) => shape.spec_adjust_colors(ColorAdjust::TintTowards(target)),
            None => shape,
        };
        if self.opacity_factor < ONE {
            faded.spec_adjust_colors(ColorAdjust::Opacity(self.opacity_factor))
        } else {
            faded
        }
    }

    /// Fades and dims a shape as this painter is configured.
    pub fn transform_shape(&self, shape: Shape) -> (out: Shape)
        ensures
            out == self.spec_transform_shape(shape),
    {
        let faded = match self.fade_to_color {
            Some(target) => tint_shape_towards(shape, target),
            None => shape,
        };
        if self.opacity_factor < ONE {
            multiply_opacity(faded, self.opacity_factor)
        } else {
            faded
        }
    }

    /// What `add` stores for a shape: a no-op where the painter is blank,
    /// else the transformed shape.
    pub open spec fn stored(&self, shape: Shape) -> Shape {
        if self.spec_is_blank() {
            Shape::Noop
        } else {
            self.spec_transform_shape(shape)
        }
    }

    /// Each shape as `transform_shape` stores it.
    pub open spec fn transformed_all(&self, shapes: Seq<Shape>) -> Seq<Shape> {
        Seq::new(shapes.len(), |i: int| self.spec_transform_shape(shapes[i]))
    }

    /// The state after `add`.
    pub open spec fn spec_add(&self, ctx: PassView, shape: Shape) -> PassView {
        ctx.paint(self.layer_id, self.clip_rect, self.stored(shape))
    }

    /// The position that `add` returns.
    pub open spec fn next_idx(&self, ctx: PassView) -> ShapeIdx {
        ShapeIdx(shapes_of(ctx.graphics, self.layer_id).len() as usize)
    }

    /// Appends one shape to the layer's list, transformed and clipped, and
    /// returns its position. A blank painter takes up the position with a
    /// no-op, so that a later `set` finds it.
    pub fn add(&self, ctx: &mut PassContext, shape: Shape) -> (idx: ShapeIdx)
        ensures
            final(ctx)@ == self.spec_add(old(ctx)@, shape),
            idx.0 == shapes_of(old(ctx)@.graphics, self.layer_id).len(),
    {
        if self.is_blank() {
            ctx.graphics.add(self.layer_id, self.clip_rect, Shape::Noop)
        } else {
            let shape = self.transform_shape(shape);
            ctx.graphics.add(self.layer_id, self.clip_rect, shape)
        }
    }

    /// The state after `extend`.
    pub open spec fn spec_extend(&self, ctx: PassView, shapes: Seq<Shape>) -> PassView {
        if self.spec_is_blank() {
            ctx
        } else {
            ctx.paint_all(self.layer_id, self.clip_rect, self.transformed_all(shapes))
        }
    }

    /// Appends many shapes, each as `add` would store it. A blank painter
    /// appends nothing, as no positions are handed out.
    pub fn extend(&self, ctx: &mut PassContext, shapes: Vec<Shape>)
        ensures
            final(ctx)@ == self.spec_extend(old(ctx)@, shapes@),
    {
        if self.is_blank() {
            return ;
        }
        let ghost given = shapes@;
        let mut shapes = shapes;
        if self.fade_to_color.is_some() || self.opacity_factor < ONE {
            let n: usize = shapes.len();
            let mut i: usize = 0;
            while i < n
                invariant
                    i <= n,
                    n == given.len(),
                    shapes@.len() == n,
                    forall|j: int| i <= j < n ==> shapes@[j] == given[j],
                    forall|j: int| 0 <= j < i ==> shapes@[j] == self.spec_transform_shape(given[j]),
                decreases n - i,
            {
                let mut shape = Shape::Noop;
                core::mem::swap(&mut shapes[i], &mut shape);
                let mut shape = self.transform_shape(shape);
                core::mem::swap(&mut shapes[i], &mut shape);
                i += 1;
            }
        }
        proof {
            assert(shapes@ =~= self.transformed_all(given));
        }
        ctx.graphics.extend(self.layer_id, self.clip_rect, shapes);
    }

    /// The state after `set`.
    pub open spec fn spec_set(&self, ctx: PassView, idx: ShapeIdx, shape: Shape) -> PassView {
        if self.fade_to_color == Some(Color32::spec_transparent()) {
            ctx
        } else {
            ctx.repaint(self.layer_id, idx, self.clip_rect, self.spec_transform_shape(shape))
        }
    }

    /// Replaces the shape at a position that `add` handed out, with the
    /// transformed shape and this painter's clip rectangle. An invisible
    /// painter changes nothing.
    pub fn set(&self, ctx: &mut PassContext, idx: ShapeIdx, shape: Shape)
        ensures
            final(ctx)@ == self.spec_set(old(ctx)@, idx, shape),
    {
        let hidden = match self.fade_to_color {
            Some(c) => c == Color32::transparent(),
            None => false,
        };
        if hidden {
            return ;
        }
        let shape = self.transform_shape(shape);
        ctx.graphics.set(self.layer_id, idx, self.clip_rect, shape);
    }

    /// Calls `reader` on every shape added to this painter's layer in this
    /// pass, in the order in which they were added, and collects what it
    /// returns.
    pub fn for_each_shape<T, F: Fn(&ClippedShape) -> T>(&self, ctx: &PassContext, reader: F) -> (out: Vec<
        T,
    >)
        requires
            forall|i: int|
                0 <= i < shapes_of(ctx@.graphics, self.layer_id).len() ==> reader.requires(
                    (&#[trigger] shapes_of(ctx@.graphics, self.layer_id)[i],),
                ),
        ensures
            out@.len() == shapes_of(ctx@.graphics, self.layer_id).len(),
            forall|i: int|
                0 <= i < out@.len() ==> reader.ensures(
                    (&shapes_of(ctx@.graphics, self.layer_id)[i],),
                    #[trigger] out@[i],
                ),
    {
        let mut out: Vec<T> = Vec::new();
        let ghost all = shapes_of(ctx@.graphics, self.layer_id);
        match ctx.graphics.get(self.layer_id) {
            Some(list) => {
                let mut i: usize = 0;
                while i < list.shapes.len()
                    invariant
                        i <= list.shapes.len(),
                        list@ == all,
                        out@.len() == i,
                        forall|j: int| 0 <= j < all.len() ==> reader.requires((&#[trigger] all[j],)),
                        forall|j: int| 0 <= j < i ==> reader.ensures((&all[j],), #[trigger] out@[j]),
                    decreases list.shapes.len() - i,
                {
                    assert(list.shapes@[i as int] == all[i as int]);
                    let item = reader(&list.shapes[i]);
                    out.push(item);
                    i += 1;
                }
            },
            None => {},
        }
        out
    }
}

impl Painter {
    /// The state after a galley is painted: nothing is added for an empty one.
    pub open spec fn spec_galley(&self, ctx: PassView, shape: Shape, galley: Galley) -> PassView {
        if galley.empty {
            ctx
        } else {
            self.spec_add(ctx, shape)
        }
    }

    /// The state after `arrow`: the shaft from `origin` to the tip, then the
    /// two barbs from the tip back, each a quarter as long as the shaft and
    /// a tenth of a turn off its line.
    pub open spec fn spec_arrow(&self, ctx: PassView, origin: Pos2, vec: Vec2, stroke: Stroke) -> PassView {
        let tip = origin.spec_offset(vec);
        self.spec_add(
            self.spec_add(
                self.spec_add(ctx, Shape::LineSegment { points: [origin, tip], stroke }),
                Shape::LineSegment { points: [tip, tip.spec_offset_back(barb_spec(vec, true))], stroke },
            ),
            Shape::LineSegment { points: [tip, tip.spec_offset_back(barb_spec(vec, false))], stroke },
        )
    }

    /// The rectangle that `debug_text` fills behind text laid out at `rect`:
    /// 2 points more on each side.
    pub open spec fn debug_frame(rect: Rect) -> Rect {
        rect.spec_expand((2 * UNITS_PER_POINT) as i32)
    }

    /// The background that `debug_text` puts behind text of the given
    /// colour: dark behind bright text, light behind dark text. A colour is
    /// bright if it is additive or if `intense` says so.
    pub open spec fn debug_background(color: Color32, intense: bool) -> Color32 {
        if color.spec_is_additive() || intense {
            Color32::spec_from_black_alpha(150)
        } else {
            Color32::spec_from_white_alpha(150)
        }
    }

    /// The state after `debug_text`.
    pub open spec fn spec_debug_text(
        &self,
        ctx: PassView,
        pos: Pos2,
        anchor: Align2,
        color: Color32,
        galley: Galley,
        intense: bool,
    ) -> PassView {
        let rect = anchor.spec_anchor_size(pos, galley.size);
        self.spec_galley(
            self.spec_add(
                ctx,
                Shape::spec_rect_filled(
                    Painter::debug_frame(rect),
                    0,
                    Painter::debug_background(color, intense),
                ),
            ),
            Shape::spec_galley(rect.min, galley, color),
            galley,
        )
    }

    /// The state after `debug_rect`.
    pub open spec fn spec_debug_rect(
        &self,
        ctx: PassView,
        rect: Rect,
        color: Color32,
        fill: Color32,
        galley: Galley,
    ) -> PassView {
        self.spec_galley(
            self.spec_add(
                ctx,
                Shape::Rect {
                    rect,
                    corner_radius: 0,
                    fill,
                    stroke: Stroke { width: UNITS_PER_POINT, color },
                    stroke_kind: StrokeKind::Outside,
                },
            ),
            Shape::spec_galley(Align2::spec_left_top().spec_anchor_size(rect.min, galley.size).min, galley, color),
            galley,
        )
    }

    /// Outlines `rect` in `color`, filled with `fill`, and labels it at its
    /// upper left corner with the text laid out in `galley`. The fill is
    /// meant to be a faint additive shade of `color`.
    pub fn debug_rect(&self, ctx: &mut PassContext, rect: Rect, color: Color32, fill: Color32, galley: Galley)
        ensures
            final(ctx)@ == self.spec_debug_rect(old(ctx)@, rect, color, fill, galley),
    {
        let _ = self.rect(ctx, rect, 0, fill, Stroke::new(UNITS_PER_POINT, color), StrokeKind::Outside);
        let _ = self.text(ctx, rect.min, Align2::left_top(), galley, color);
    }

    /// Paints an error message, laid out in `galley`, at `pos`, in the
    /// style's colour for errors. Returns the rectangle behind the text.
    pub fn error(&self, ctx: &mut PassContext, pos: Pos2, galley: Galley, intense: bool) -> (r: Rect)
        ensures
            final(ctx)@ == self.spec_debug_text(
                old(ctx)@,
                pos,
                Align2::spec_left_top(),
                old(ctx)@.style.visuals.error_fg_color,
                galley,
                intense,
            ),
            r == Painter::debug_frame(Align2::spec_left_top().spec_anchor_size(pos, galley.size)),
    {
        let color = ctx.style().visuals.error_fg_color;
        self.debug_text(ctx, pos, Align2::left_top(), color, galley, intense)
    }

    /// Paints text, laid out in `galley`, on a background that sets it
    /// off. `intense` says whether the intensity of `color` is above one
    /// half; the host computes it. Returns the rectangle of the background.
    pub fn debug_text(
        &self,
        ctx: &mut PassContext,
        pos: Pos2,
        anchor: Align2,
        color: Color32,
        galley: Galley,
        intense: bool,
    ) -> (r: Rect)
        ensures
            final(ctx)@ == self.spec_debug_text(old(ctx)@, pos, anchor, color, galley, intense),
            r == Painter::debug_frame(anchor.spec_anchor_size(pos, galley.size)),
    {
        let rect = anchor.anchor_size(pos, galley.size());
        let frame_rect = rect.expand(2 * UNITS_PER_POINT);
        let is_text_bright = color.is_additive() || intense;
        let bg_color = if is_text_bright {
            Color32::from_black_alpha(150)
        } else {
            Color32::from_white_alpha(150)
        };
        let _ = self.add(ctx, Shape::rect_filled(frame_rect, 0, bg_color));
        self.galley(ctx, rect.min, galley, color);
        frame_rect
    }

    /// Paints a line from the first point to the second.
    pub fn line_segment(&self, ctx: &mut PassContext, points: [Pos2; 2], stroke: Stroke) -> (idx: ShapeIdx)
        ensures
            final(ctx)@ == self.spec_add(old(ctx)@, Shape::LineSegment { points, stroke }),
            idx == self.next_idx(old(ctx)@),
    {
        self.add(ctx, Shape::LineSegment { points, stroke })
    }

    /// Paints a line through the points.
    pub fn line(&self, ctx: &mut PassContext, points: Vec<Pos2>, stroke: Stroke) -> (idx: ShapeIdx)
        ensures
            final(ctx)@ == self.spec_add(old(ctx)@, Shape::spec_line(points, stroke)),
            idx == self.next_idx(old(ctx)@),
    {
        self.add(ctx, Shape::line(points, stroke))
    }

    /// Paints a horizontal line.
    pub fn hline(&self, ctx: &mut PassContext, x: Rangei, y: i32, stroke: Stroke) -> (idx: ShapeIdx)
        ensures
            final(ctx)@ == self.spec_add(old(ctx)@, hline_spec(x, y, stroke)),
            idx == self.next_idx(old(ctx)@),
    {
        self.add(ctx, hline(x, y, stroke))
    }

    /// Paints a vertical line.
    pub fn vline(&self, ctx: &mut PassContext, x: i32, y: Rangei, stroke: Stroke) -> (idx: ShapeIdx)
        ensures
            final(ctx)@ == self.spec_add(old(ctx)@, vline_spec(x, y, stroke)),
            idx == self.next_idx(old(ctx)@),
    {
        self.add(ctx, vline(x, y, stroke))
    }

    /// Paints a circle, filled and outlined.
    pub fn circle(&self, ctx: &mut PassContext, center: Pos2, radius: i32, fill_color: Color32, stroke: Stroke) -> (idx:
        ShapeIdx)
        ensures
            final(ctx)@ == self.spec_add(
                old(ctx)@,
                Shape::Circle { center, radius, fill: fill_color, stroke },
            ),
            idx == self.next_idx(old(ctx)@),
    {
        self.add(ctx, Shape::Circle { center, radius, fill: fill_color, stroke })
    }

    /// Paints a filled circle.
    pub fn circle_filled(&self, ctx: &mut PassContext, center: Pos2, radius: i32, fill_color: Color32) -> (idx:
        ShapeIdx)
        ensures
            final(ctx)@ == self.spec_add(old(ctx)@, Shape::spec_circle_filled(center, radius, fill_color)),
            idx == self.next_idx(old(ctx)@),
    {
        self.add(ctx, Shape::circle_filled(center, radius, fill_color))
    }

    /// Paints the outline of a circle.
    pub fn circle_stroke(&self, ctx: &mut PassContext, center: Pos2, radius: i32, stroke: Stroke) -> (idx:
        ShapeIdx)
        ensures
            final(ctx)@ == self.spec_add(old(ctx)@, Shape::spec_circle_stroke(center, radius, stroke)),
            idx == self.next_idx(old(ctx)@),
    {
        self.add(ctx, Shape::circle_stroke(center, radius, stroke))
    }

    /// Paints a rectangle, filled and outlined.
    pub fn rect(
        &self,
        ctx: &mut PassContext,
        rect: Rect,
        corner_radius: i32,
        fill_color: Color32,
        stroke: Stroke,
        stroke_kind: StrokeKind,
    ) -> (idx: ShapeIdx)
        ensures
            final(ctx)@ == self.spec_add(
                old(ctx)@,
                Shape::Rect { rect, corner_radius, fill: fill_color, stroke, stroke_kind },
            ),
            idx == self.next_idx(old(ctx)@),
    {
        self.add(ctx, Shape::Rect { rect, corner_radius, fill: fill_color, stroke, stroke_kind })
    }

    /// Paints a filled rectangle.
    pub fn rect_filled(&self, ctx: &mut PassContext, rect: Rect, corner_radius: i32, fill_color: Color32) -> (idx:
        ShapeIdx)
        ensures
            final(ctx)@ == self.spec_add(old(ctx)@, Shape::spec_rect_filled(rect, corner_radius, fill_color)),
            idx == self.next_idx(old(ctx)@),
    {
        self.add(ctx, Shape::rect_filled(rect, corner_radius, fill_color))
    }

    /// Paints the outline of a rectangle.
    pub fn rect_stroke(
        &self,
        ctx: &mut PassContext,
        rect: Rect,
        corner_radius: i32,
        stroke: Stroke,
        stroke_kind: StrokeKind,
    ) -> (idx: ShapeIdx)
        ensures
            final(ctx)@ == self.spec_add(
                old(ctx)@,
                Shape::spec_rect_stroke(rect, corner_radius, stroke, stroke_kind),
            ),
            idx == self.next_idx(old(ctx)@),
    {
        self.add(ctx, Shape::rect_stroke(rect, corner_radius, stroke, stroke_kind))
    }

    /// Paints an arrow from `origin` along `vec`.
    pub fn arrow(&self, ctx: &mut PassContext, origin: Pos2, vec: Vec2, stroke: Stroke)
        ensures
            final(ctx)@ == self.spec_arrow(old(ctx)@, origin, vec, stroke),
    {
        let tip = origin.offset(vec);
        let _ = self.line_segment(ctx, [origin, tip], stroke);
        let _ = self.line_segment(ctx, [tip, tip.offset_back(barb(vec, true))], stroke);
        let _ = self.line_segment(ctx, [tip, tip.offset_back(barb(vec, false))], stroke);
    }

    /// Paints the part `uv` of a texture into `rect`, multiplied by `tint`.
    pub fn image(&self, ctx: &mut PassContext, texture_id: u64, rect: Rect, uv: Rect, tint: Color32) -> (idx:
        ShapeIdx)
        ensures
            final(ctx)@ == self.spec_add(old(ctx)@, Shape::Image { texture_id, rect, uv, tint }),
            idx == self.next_idx(old(ctx)@),
    {
        self.add(ctx, Shape::Image { texture_id, rect, uv, tint })
    }

    /// Paints text, laid out in `galley`, anchored at `pos`. Returns where
    /// the text ended up.
    pub fn text(&self, ctx: &mut PassContext, pos: Pos2, anchor: Align2, galley: Galley, text_color: Color32) -> (r:
        Rect)
        ensures
            r == anchor.spec_anchor_size(pos, galley.size),
            final(ctx)@ == self.spec_galley(old(ctx)@, Shape::spec_galley(r.min, galley, text_color), galley),
    {
        let rect = anchor.anchor_size(pos, galley.size());
        self.galley(ctx, rect.min, galley, text_color);
        rect
    }

    /// Paints laid-out text at `pos`. The parts that the text left
    /// uncoloured take `fallback_color`; its own colours win. Nothing is
    /// added for an empty galley.
    pub fn galley(&self, ctx: &mut PassContext, pos: Pos2, galley: Galley, fallback_color: Color32)
        ensures
            final(ctx)@ == self.spec_galley(old(ctx)@, Shape::spec_galley(pos, galley, fallback_color), galley),
    {
        if !galley.is_empty() {
            let _ = self.add(ctx, Shape::galley(pos, galley, fallback_color));
        }
    }

    /// Paints laid-out text at `pos`, all of it in `text_color`. Nothing is
    /// added for an empty galley.
    pub fn galley_with_override_text_color(
        &self,
        ctx: &mut PassContext,
        pos: Pos2,
        galley: Galley,
        text_color: Color32,
    )
        ensures
            final(ctx)@ == self.spec_galley(
                old(ctx)@,
                Shape::spec_galley_with_override_text_color(pos, galley, text_color),
                galley,
            ),
    {
        if !galley.is_empty() {
            let _ = self.add(ctx, Shape::galley_with_override_text_color(pos, galley, text_color));
        }
    }
}

/// The shape with every colour but the placeholder faded towards `target`.
pub fn tint_shape_towards(shape: Shape, target: Color32) -> (out: Shape)
    ensures
        out == shape.spec_adjust_colors(ColorAdjust::TintTowards(target)),
{
    shape.adjust_colors(ColorAdjust::TintTowards(target))
}

/// The shape with every colour but the placeholder multiplied by `opacity`.
pub fn multiply_opacity(shape: Shape, opacity: i32) -> (out: Shape)
    ensures
        out == shape.spec_adjust_colors(ColorAdjust::Opacity(opacity)),
{
    shape.adjust_colors(ColorAdjust::Opacity(opacity))
}

} // verus!
