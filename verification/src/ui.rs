//! Regions: the rectangles that content is laid out in, one after another
//! along a main direction, and the frames drawn around them.

use vstd::prelude::*;
use crate::color::Color32;
use crate::context::{PassContext, PassView, Response, Sense};
use crate::geom::{Pos2, Rect, Vec2};
use crate::id::{Id, IdSalt};
use crate::layers::{LayerId, ShapeIdx};
use crate::num::{at_least, max_int, sat, sat_add, sat_sub, UNITS_PER_POINT};
use crate::painter::Painter;
use crate::shape::{Shape, Stroke, StrokeKind};
use crate::style::Style;

verus! {

/// What a region is part of.
#[derive(Clone, Copy, Debug, PartialEq, Eq, Structural)]
pub enum UiKind {
    Generic,
    LeftPanel,
    RightPanel,
    TopPanel,
    BottomPanel,
    CentralPanel,
    TableCell,
    Frame,
}

/// The direction in which a region places one widget after another.
#[derive(Clone, Copy, Debug, PartialEq, Eq, Structural)]
pub enum Layout {
    TopDown,
    LeftToRight,
}

/// How a new region differs from what it would inherit.
#[derive(Clone, Copy, Debug, PartialEq, Eq, Structural)]
pub struct UiBuilder {
    /// The region's identifier; derived from the parent's where absent.
    pub id: Option<Id>,
    pub kind: UiKind,
    pub layer_id: Option<LayerId>,
    pub max_rect: Option<Rect>,
    pub layout: Option<Layout>,
    pub sense: Option<Sense>,
    pub sizing_pass: bool,
}

impl UiBuilder {
    /// A builder that changes nothing.
    pub open spec fn spec_new() -> UiBuilder {
        UiBuilder {
            id: None,
            kind: UiKind::Generic,
            layer_id: None,
            max_rect: None,
            layout: None,
            sense: None,
            sizing_pass: false,
        }
    }

    /// A builder that changes nothing.
    #[verifier::when_used_as_spec(spec_new)]
    pub fn new() -> (b: UiBuilder)
        ensures
            b == UiBuilder::spec_new(),
    {
        UiBuilder {
            id: None,
            kind: UiKind::Generic,
            layer_id: None,
            max_rect: None,
            layout: None,
            sense: None,
            sizing_pass: false,
        }
    }

    /// Gives the region an identifier of its own.
    pub open spec fn spec_id_salt(self, id: Id) -> UiBuilder {
        UiBuilder { id: Some(id), ..self }
    }

    /// Gives the region an identifier of its own.
    #[verifier::when_used_as_spec(spec_id_salt)]
    pub fn id_salt(self, id: Id) -> (b: UiBuilder)
        ensures
            b == self.spec_id_salt(id),
    {
        UiBuilder { id: Some(id), ..self }
    }

    /// Says what the region is part of.
    pub open spec fn spec_ui_stack_info(self, kind: UiKind) -> UiBuilder {
        UiBuilder { kind, ..self }
    }

    /// Says what the region is part of.
    #[verifier::when_used_as_spec(spec_ui_stack_info)]
    pub fn ui_stack_info(self, kind: UiKind) -> (b: UiBuilder)
        ensures
            b == self.spec_ui_stack_info(kind),
    {
        UiBuilder { kind, ..self }
    }

    /// Paints the region to another layer.
    pub open spec fn spec_layer_id(self, layer_id: LayerId) -> UiBuilder {
        UiBuilder { layer_id: Some(layer_id), ..self }
    }

    /// Paints the region to another layer.
    #[verifier::when_used_as_spec(spec_layer_id)]
    pub fn layer_id(self, layer_id: LayerId) -> (b: UiBuilder)
        ensures
            b == self.spec_layer_id(layer_id),
    {
        UiBuilder { layer_id: Some(layer_id), ..self }
    }

    /// Bounds the region.
    pub open spec fn spec_max_rect(self, max_rect: Rect) -> UiBuilder {
        UiBuilder { max_rect: Some(max_rect), ..self }
    }

    /// Bounds the region.
    #[verifier::when_used_as_spec(spec_max_rect)]
    pub fn max_rect(self, max_rect: Rect) -> (b: UiBuilder)
        ensures
            b == self.spec_max_rect(max_rect),
    {
        UiBuilder { max_rect: Some(max_rect), ..self }
    }

    /// Sets the direction of the region's layout.
    pub open spec fn spec_layout(self, layout: Layout) -> UiBuilder {
        UiBuilder { layout: Some(layout), ..self }
    }

    /// Sets the direction of the region's layout.
    #[verifier::when_used_as_spec(spec_layout)]
    pub fn layout(self, layout: Layout) -> (b: UiBuilder)
        ensures
            b == self.spec_layout(layout),
    {
        UiBuilder { layout: Some(layout), ..self }
    }

    /// Sets what the region as a whole senses.
    pub open spec fn spec_sense(self, sense: Sense) -> UiBuilder {
        UiBuilder { sense: Some(sense), ..self }
    }

    /// Sets what the region as a whole senses.
    #[verifier::when_used_as_spec(spec_sense)]
    pub fn sense(self, sense: Sense) -> (b: UiBuilder)
        ensures
            b == self.spec_sense(sense),
    {
        UiBuilder { sense: Some(sense), ..self }
    }

    /// Makes the region measure its content instead of showing it.
    pub open spec fn spec_sizing_pass(self) -> UiBuilder {
        UiBuilder { sizing_pass: true, ..self }
    }

    /// Makes the region measure its content instead of showing it.
    #[verifier::when_used_as_spec(spec_sizing_pass)]
    pub fn sizing_pass(self) -> (b: UiBuilder)
        ensures
            b == self.spec_sizing_pass(),
    {
        UiBuilder { sizing_pass: true, ..self }
    }
}

/// A region of the screen in which widgets are placed one after another.
///
/// `max_rect` bounds the region, `min_rect` is what has been used of it, and
/// `cursor` is where the next widget goes: along the main direction its `min`
/// moves on with every widget, and across it restricts what is available.
#[derive(Clone, Copy, Debug, PartialEq, Eq, Structural)]
pub struct Ui {
    pub id: Id,
    pub kind: UiKind,
    pub layout: Layout,
    pub painter: Painter,
    pub style: Style,
    pub min_rect: Rect,
    pub max_rect: Rect,
    pub cursor: Rect,
    pub sizing_pass: bool,
    pub sense: Sense,
}

/// The cursor after a widget took `rect`: its `min` lies one spacing past
/// the widget along the main direction.
pub open spec fn cursor_after(layout: Layout, cursor: Rect, rect: Rect, item_spacing: Vec2) -> Rect {
    match layout {
        Layout::TopDown => Rect {
            min: Pos2 { x: cursor.min.x, y: sat(rect.max.y + item_spacing.y) as i32 },
            max: cursor.max,
        },
        Layout::LeftToRight => Rect {
            min: Pos2 { x: sat(rect.max.x + item_spacing.x) as i32, y: cursor.min.y },
            max: cursor.max,
        },
    }
}

impl Ui {
    /// A top-level region: it fills `max_rect`, or the screen where the
    /// builder gives none, and paints to the background layer unless the
    /// builder names another.
    pub open spec fn spec_new(ctx: PassView, id: Id, builder: UiBuilder) -> Ui {
        let max_rect = match builder.max_rect {
            Some(r) => r,
            None => ctx.screen_rect,
        };
        let layer_id = match builder.layer_id {
            Some(l) => l,
            None => LayerId::spec_background(),
        };
        Ui {
            id,
            kind: builder.kind,
            layout: match builder.layout {
                Some(l) => l,
                None => Layout::TopDown,
            },
            painter: Painter::spec_new(ctx, layer_id, max_rect),
            style: ctx.style,
            min_rect: Rect { min: max_rect.min, max: max_rect.min },
            max_rect,
            cursor: max_rect,
            sizing_pass: builder.sizing_pass,
            sense: match builder.sense {
                Some(s) => s,
                None => Sense::spec_hover(),
            },
        }
    }

    /// A top-level region: it fills `max_rect`, or the screen where the
    /// builder gives none, and paints to the background layer unless the
    /// builder names another.
    pub fn new(ctx: &PassContext, id: Id, builder: UiBuilder) -> (ui: Ui)
        ensures
            ui == Ui::spec_new(ctx@, id, builder),
    {
        let max_rect = match builder.max_rect {
            Some(r) => r,
            None => ctx.screen_rect(),
        };
        let layer_id = match builder.layer_id {
            Some(l) => l,
            None => LayerId::background(),
        };
        Ui {
            id,
            kind: builder.kind,
            layout: match builder.layout {
                Some(l) => l,
                None => Layout::TopDown,
            },
            painter: Painter::new(ctx, layer_id, max_rect),
            style: ctx.style(),
            min_rect: Rect { min: max_rect.min, max: max_rect.min },
            max_rect,
            cursor: max_rect,
            sizing_pass: builder.sizing_pass,
            sense: match builder.sense {
                Some(s) => s,
                None => Sense::hover(),
            },
        }
    }

    /// What is left for the next widget: the part of `max_rect` that the
    /// cursor allows, never negative.
    pub open spec fn spec_available_rect_before_wrap(&self) -> Rect {
        self.max_rect.spec_intersect(self.cursor).spec_non_negative()
    }

    /// What is left for the next widget: the part of `max_rect` that the
    /// cursor allows, never negative.
    #[verifier::when_used_as_spec(spec_available_rect_before_wrap)]
    pub fn available_rect_before_wrap(&self) -> (r: Rect)
        ensures
            r == self.spec_available_rect_before_wrap(),
    {
        self.max_rect.intersect(self.cursor).non_negative()
    }

    /// A region inside this one. It inherits style, painter, layout and
    /// sizing pass, fills what is available unless the builder bounds it,
    /// and starts empty at the upper left corner of its bounds.
    pub open spec fn spec_new_child(&self, builder: UiBuilder) -> Ui {
        let max_rect = match builder.max_rect {
            Some(r) => r,
            None => self.spec_available_rect_before_wrap(),
        };
        Ui {
            id: match builder.id {
                Some(id) => id,
                None => self.id.spec_with(IdSalt::Auto),
            },
            kind: builder.kind,
            layout: match builder.layout {
                Some(l) => l,
                None => self.layout,
            },
            painter: match builder.layer_id {
                Some(l) => self.painter.spec_with_layer_id(l),
                None => self.painter,
            },
            style: self.style,
            min_rect: Rect { min: max_rect.min, max: max_rect.min },
            max_rect,
            cursor: max_rect,
            sizing_pass: self.sizing_pass || builder.sizing_pass,
            sense: match builder.sense {
                Some(s) => s,
                None => Sense::spec_hover(),
            },
        }
    }

    /// A region inside this one. It inherits style, painter, layout and
    /// sizing pass, fills what is available unless the builder bounds it,
    /// and starts empty at the upper left corner of its bounds.
    #[verifier::when_used_as_spec(spec_new_child)]
    pub fn new_child(&self, builder: UiBuilder) -> (child: Ui)
        ensures
            child == self.spec_new_child(builder),
    {
        let max_rect = match builder.max_rect {
            Some(r) => r,
            None => self.available_rect_before_wrap(),
        };
        Ui {
            id: match builder.id {
                Some(id) => id,
                None => self.id.with(IdSalt::Auto),
            },
            kind: builder.kind,
            layout: match builder.layout {
                Some(l) => l,
                None => self.layout,
            },
            painter: match builder.layer_id {
                Some(l) => self.painter.with_layer_id(l),
                None => self.painter,
            },
            style: self.style,
            min_rect: Rect { min: max_rect.min, max: max_rect.min },
            max_rect,
            cursor: max_rect,
            sizing_pass: self.sizing_pass || builder.sizing_pass,
            sense: match builder.sense {
                Some(s) => s,
                None => Sense::hover(),
            },
        }
    }

    /// The bounding rectangle of what has been used.
    pub fn min_rect(&self) -> (r: Rect)
        ensures
            r == self.min_rect,
    {
        self.min_rect
    }

    /// The bounds of the region.
    pub fn max_rect(&self) -> (r: Rect)
        ensures
            r == self.max_rect,
    {
        self.max_rect
    }

    /// Where the next widget goes.
    pub fn cursor(&self) -> (r: Rect)
        ensures
            r == self.cursor,
    {
        self.cursor
    }

    /// Moves the cursor.
    pub fn set_cursor(&mut self, cursor: Rect)
        ensures
            *final(self) == (Ui { cursor, ..*old(self) }),
    {
        self.cursor = cursor;
    }

    /// The painter of this region.
    pub fn painter(&self) -> (p: Painter)
        ensures
            p == self.painter,
    {
        self.painter
    }

    /// The style of this region.
    pub fn style(&self) -> (s: Style)
        ensures
            s == self.style,
    {
        self.style
    }

    /// Whether the region measures its content instead of showing it.
    pub fn is_sizing_pass(&self) -> (r: bool)
        ensures
            r == self.sizing_pass,
    {
        self.sizing_pass
    }

    /// The rectangle outside which nothing of this region is shown.
    pub fn clip_rect(&self) -> (r: Rect)
        ensures
            r == self.painter.clip_rect,
    {
        self.painter.clip_rect
    }

    /// The region with another clip rectangle.
    pub open spec fn spec_with_clip_rect(self, clip_rect: Rect) -> Ui {
        Ui { painter: Painter { clip_rect, ..self.painter }, ..self }
    }

    /// Replaces the clip rectangle.
    pub fn set_clip_rect(&mut self, clip_rect: Rect)
        ensures
            *final(self) == old(self).spec_with_clip_rect(clip_rect),
    {
        self.painter.set_clip_rect(clip_rect);
    }

    /// Narrows the clip rectangle to its intersection with `clip_rect`.
    pub fn shrink_clip_rect(&mut self, clip_rect: Rect)
        ensures
            *final(self) == old(self).spec_with_clip_rect(
                old(self).painter.clip_rect.spec_intersect(clip_rect),
            ),
    {
        self.painter.shrink_clip_rect(clip_rect);
    }

    /// The region grown, in what it has used and in its bounds, to hold `rect`.
    pub open spec fn spec_expand_to_include_rect(self, rect: Rect) -> Ui {
        Ui {
            min_rect: self.min_rect.spec_union(rect),
            max_rect: self.max_rect.spec_union(rect),
            ..self
        }
    }

    /// Grows what has been used, and the bounds, to hold `rect`.
    pub fn expand_to_include_rect(&mut self, rect: Rect)
        ensures
            *final(self) == old(self).spec_expand_to_include_rect(rect),
    {
        self.min_rect = self.min_rect.union(rect);
        self.max_rect = self.max_rect.union(rect);
    }

    /// The region with at least `width` used, counted from its left edge.
    pub open spec fn spec_set_min_width(self, width: i32) -> Ui {
        let right = sat(self.min_rect.min.x + width);
        Ui {
            min_rect: Rect {
                min: self.min_rect.min,
                max: Pos2 {
                    x: max_int(self.min_rect.max.x as int, right) as i32,
                    y: self.min_rect.max.y,
                },
            },
            max_rect: Rect {
                min: self.max_rect.min,
                max: Pos2 {
                    x: max_int(self.max_rect.max.x as int, right) as i32,
                    y: self.max_rect.max.y,
                },
            },
            ..self
        }
    }

    /// Makes the region use at least `width`, counted from its left edge.
    pub fn set_min_width(&mut self, width: i32)
        ensures
            *final(self) == old(self).spec_set_min_width(width),
    {
        let right: i32 = sat_add(self.min_rect.min.x, width);
        self.min_rect.max.x = at_least(self.min_rect.max.x, right);
        self.max_rect.max.x = at_least(self.max_rect.max.x, right);
    }

    /// The region with at least `height` used, counted from its top edge.
    pub open spec fn spec_set_min_height(self, height: i32) -> Ui {
        let bottom = sat(self.min_rect.min.y + height);
        Ui {
            min_rect: Rect {
                min: self.min_rect.min,
                max: Pos2 {
                    x: self.min_rect.max.x,
                    y: max_int(self.min_rect.max.y as int, bottom) as i32,
                },
            },
            max_rect: Rect {
                min: self.max_rect.min,
                max: Pos2 {
                    x: self.max_rect.max.x,
                    y: max_int(self.max_rect.max.y as int, bottom) as i32,
                },
            },
            ..self
        }
    }

    /// Makes the region use at least `height`, counted from its top edge.
    pub fn set_min_height(&mut self, height: i32)
        ensures
            *final(self) == old(self).spec_set_min_height(height),
    {
        let bottom: i32 = sat_add(self.min_rect.min.y, height);
        self.min_rect.max.y = at_least(self.min_rect.max.y, bottom);
        self.max_rect.max.y = at_least(self.max_rect.max.y, bottom);
    }

    /// The region with at least `size` used.
    pub open spec fn spec_set_min_size(self, size: Vec2) -> Ui {
        self.spec_set_min_width(size.x).spec_set_min_height(size.y)
    }

    /// Makes the region use at least `size`.
    pub fn set_min_size(&mut self, size: Vec2)
        ensures
            *final(self) == old(self).spec_set_min_size(size),
    {
        self.set_min_width(size.x);
        self.set_min_height(size.y);
    }

    /// The region after a widget took `rect`: it holds `rect`, and the
    /// cursor lies past it.
    pub open spec fn spec_advance_cursor_after_rect(self, rect: Rect) -> Ui {
        Ui {
            cursor: cursor_after(self.layout, self.cursor, rect, self.style.spacing.item_spacing),
            ..self.spec_expand_to_include_rect(rect)
        }
    }

    /// Counts `rect` as used and moves the cursor past it.
    pub fn advance_cursor_after_rect(&mut self, rect: Rect)
        ensures
            *final(self) == old(self).spec_advance_cursor_after_rect(rect),
    {
        self.expand_to_include_rect(rect);
        match self.layout {
            Layout::TopDown => {
                self.cursor.min.y = sat_add(rect.max.y, self.style.spacing.item_spacing.y);
            },
            Layout::LeftToRight => {
                self.cursor.min.x = sat_add(rect.max.x, self.style.spacing.item_spacing.x);
            },
        }
    }

    /// The rectangle that the next widget of the given size gets.
    pub open spec fn spec_next_widget_rect(&self, size: Vec2) -> Rect {
        Rect::spec_from_min_size(self.cursor.min, size)
    }

    /// Takes space for a widget of the given size at the cursor and returns
    /// where it lies.
    pub fn allocate_space(&mut self, size: Vec2) -> (rect: Rect)
        ensures
            rect == old(self).spec_next_widget_rect(size),
            *final(self) == old(self).spec_advance_cursor_after_rect(rect),
    {
        let rect = Rect::from_min_size(self.cursor.min, size);
        self.advance_cursor_after_rect(rect);
        rect
    }

    /// The identifier under which this region registers a rectangle that
    /// was given none.
    pub open spec fn auto_id(&self) -> Id {
        self.id.spec_with(IdSalt::Auto)
    }

    /// Takes `rect`, rounded to device pixels, as the place of a widget, and
    /// registers it for interaction.
    pub fn allocate_rect(&mut self, ctx: &mut PassContext, rect: Rect, sense: Sense) -> (r: Response)
        ensures
            *final(self) == old(self).spec_advance_cursor_after_rect(
                rect.spec_round_to_grid(old(ctx)@.pixel_size),
            ),
            final(ctx)@ == old(ctx)@.interact(
                rect.spec_round_to_grid(old(ctx)@.pixel_size),
                old(self).auto_id(),
                sense,
            ),
            r == old(ctx)@.response_to(
                rect.spec_round_to_grid(old(ctx)@.pixel_size),
                old(self).auto_id(),
                sense,
            ),
    {
        let rect = rect.round_to_grid(ctx.pixel_size());
        self.advance_cursor_after_rect(rect);
        ctx.interact(rect, self.id.with(IdSalt::Auto), sense)
    }

    /// Registers `rect` under `id` for interaction. Layout is not affected.
    pub fn interact(&self, ctx: &mut PassContext, rect: Rect, id: Id, sense: Sense) -> (r: Response)
        ensures
            final(ctx)@ == old(ctx)@.interact(rect, id, sense),
            r == old(ctx)@.response_to(rect, id, sense),
    {
        ctx.interact(rect, id, sense)
    }

    /// Registers what the region has used, under the region's own
    /// identifier and with what it senses.
    pub fn response(&self, ctx: &mut PassContext) -> (r: Response)
        ensures
            final(ctx)@ == old(ctx)@.interact(self.min_rect, self.id, self.sense),
            r == old(ctx)@.response_to(self.min_rect, self.id, self.sense),
    {
        ctx.interact(self.min_rect, self.id, self.sense)
    }
}

/// The space left free on each side of a frame's content.
#[derive(Clone, Copy, Debug, PartialEq, Eq, Structural)]
pub struct Margin {
    pub left: i32,
    pub right: i32,
    pub top: i32,
    pub bottom: i32,
}

impl Margin {
    /// The same margin on all sides.
    pub open spec fn spec_same(v: i32) -> Margin {
        Margin { left: v, right: v, top: v, bottom: v }
    }

    /// The same margin on all sides.
    #[verifier::when_used_as_spec(spec_same)]
    pub fn same(v: i32) -> (m: Margin)
        ensures
            m == Margin::spec_same(v),
    {
        Margin { left: v, right: v, top: v, bottom: v }
    }

    /// `x` to the left and right, `y` above and below.
    pub open spec fn spec_symmetric(x: i32, y: i32) -> Margin {
        Margin { left: x, right: x, top: y, bottom: y }
    }

    /// `x` to the left and right, `y` above and below.
    #[verifier::when_used_as_spec(spec_symmetric)]
    pub fn symmetric(x: i32, y: i32) -> (m: Margin)
        ensures
            m == Margin::spec_symmetric(x, y),
    {
        Margin { left: x, right: x, top: y, bottom: y }
    }

    /// The total margin along each axis, saturating.
    pub open spec fn spec_sum(self) -> Vec2 {
        Vec2 { x: sat(self.left + self.right) as i32, y: sat(self.top + self.bottom) as i32 }
    }

    /// The total margin along each axis, saturating.
    #[verifier::when_used_as_spec(spec_sum)]
    pub fn sum(self) -> (v: Vec2)
        ensures
            v == self.spec_sum(),
    {
        Vec2 { x: sat_add(self.left, self.right), y: sat_add(self.top, self.bottom) }
    }

    /// `rect` grown by the margin.
    pub open spec fn spec_around(self, rect: Rect) -> Rect {
        Rect {
            min: Pos2 { x: sat(rect.min.x - self.left) as i32, y: sat(rect.min.y - self.top) as i32 },
            max: Pos2 { x: sat(rect.max.x + self.right) as i32, y: sat(rect.max.y + self.bottom) as i32 },
        }
    }

    /// `rect` grown by the margin.
    #[verifier::when_used_as_spec(spec_around)]
    pub fn around(self, rect: Rect) -> (r: Rect)
        ensures
            r == self.spec_around(rect),
    {
        Rect {
            min: Pos2 {
                x: sat_sub(rect.min.x, self.left),
                y: sat_sub(rect.min.y, self.top),
            },
            max: Pos2 { x: sat_add(rect.max.x, self.right), y: sat_add(rect.max.y, self.bottom) },
        }
    }

    /// `rect` shrunk by the margin, and never negative.
    pub open spec fn spec_within(self, rect: Rect) -> Rect {
        (Rect {
            min: Pos2 { x: sat(rect.min.x + self.left) as i32, y: sat(rect.min.y + self.top) as i32 },
            max: Pos2 { x: sat(rect.max.x - self.right) as i32, y: sat(rect.max.y - self.bottom) as i32 },
        }).spec_non_negative()
    }

    /// `rect` shrunk by the margin, and never negative.
    #[verifier::when_used_as_spec(spec_within)]
    pub fn within(self, rect: Rect) -> (r: Rect)
        ensures
            r == self.spec_within(rect),
    {
        (Rect {
            min: Pos2 { x: sat_add(rect.min.x, self.left), y: sat_add(rect.min.y, self.top) },
            max: Pos2 {
                x: sat_sub(rect.max.x, self.right),
                y: sat_sub(rect.max.y, self.bottom),
            },
        }).non_negative()
    }
}

/// A background and a margin around some content.
#[derive(Clone, Copy, Debug, PartialEq, Eq, Structural)]
pub struct Frame {
    pub inner_margin: Margin,
    pub fill: Color32,
    pub stroke: Stroke,
    pub corner_radius: i32,
}

/// A frame whose content is still to come: the slot kept for its background,
/// and the region for the content.
#[derive(Clone, Copy, Debug, PartialEq, Eq, Structural)]
pub struct Prepared {
    pub frame: Frame,
    pub where_to_put_background: ShapeIdx,
    pub content_ui: Ui,
}

impl Frame {
    /// The frame of panels along an edge: the panel fill, 8 points of
    /// margin left and right, 2 above and below.
    pub open spec fn spec_side_top_panel(style: Style) -> Frame {
        Frame {
            inner_margin: Margin::spec_symmetric((8 * UNITS_PER_POINT) as i32, (2 * UNITS_PER_POINT) as i32),
            fill: style.visuals.panel_fill,
            stroke: Stroke::spec_none(),
            corner_radius: 0,
        }
    }

    /// The frame of panels along an edge: the panel fill, 8 points of
    /// margin left and right, 2 above and below.
    #[verifier::when_used_as_spec(spec_side_top_panel)]
    pub fn side_top_panel(style: Style) -> (f: Frame)
        ensures
            f == Frame::spec_side_top_panel(style),
    {
        Frame {
            inner_margin: Margin::symmetric(8 * UNITS_PER_POINT, 2 * UNITS_PER_POINT),
            fill: style.visuals.panel_fill,
            stroke: Stroke::none(),
            corner_radius: 0,
        }
    }

    /// The frame of the central panel: the panel fill and 8 points of margin.
    pub open spec fn spec_central_panel(style: Style) -> Frame {
        Frame {
            inner_margin: Margin::spec_same((8 * UNITS_PER_POINT) as i32),
            fill: style.visuals.panel_fill,
            stroke: Stroke::spec_none(),
            corner_radius: 0,
        }
    }

    /// The frame of the central panel: the panel fill and 8 points of margin.
    #[verifier::when_used_as_spec(spec_central_panel)]
    pub fn central_panel(style: Style) -> (f: Frame)
        ensures
            f == Frame::spec_central_panel(style),
    {
        Frame {
            inner_margin: Margin::same(8 * UNITS_PER_POINT),
            fill: style.visuals.panel_fill,
            stroke: Stroke::none(),
            corner_radius: 0,
        }
    }

    /// The shape of the frame's background around content that used
    /// `content_rect`.
    pub open spec fn spec_paint(self, content_rect: Rect) -> Shape {
        Shape::Rect {
            rect: self.inner_margin.spec_around(content_rect),
            corner_radius: self.corner_radius,
            fill: self.fill,
            stroke: self.stroke,
            stroke_kind: StrokeKind::Inside,
        }
    }

    /// The region in which the content of a frame shown in `ui` is laid out.
    pub open spec fn content_ui(self, ui: Ui) -> Ui {
        ui.spec_new_child(
            UiBuilder::spec_new().spec_ui_stack_info(UiKind::Frame).spec_max_rect(
                self.inner_margin.spec_within(ui.spec_available_rect_before_wrap()),
            ),
        )
    }

    /// The state after `begin`: a no-op holds the place of the background.
    pub open spec fn spec_begin(self, ctx: PassView, ui: Ui) -> PassView {
        ui.painter.spec_add(ctx, Shape::Noop)
    }

    /// Starts a frame in `ui`: keeps a slot in the paint list for the
    /// background, which can only be drawn once the content's size is known,
    /// and makes the region for the content.
    pub fn begin(self, ctx: &mut PassContext, ui: &Ui) -> (prepared: Prepared)
        ensures
            final(ctx)@ == self.spec_begin(old(ctx)@, *ui),
            prepared.frame == self,
            prepared.where_to_put_background == ui.painter.next_idx(old(ctx)@),
            prepared.content_ui == self.content_ui(*ui),
    {
        let where_to_put_background = ui.painter.add(ctx, Shape::Noop);
        let inner_rect = self.inner_margin.within(ui.available_rect_before_wrap());
        let content_ui = ui.new_child(
            UiBuilder::new().ui_stack_info(UiKind::Frame).max_rect(inner_rect),
        );
        Prepared { frame: self, where_to_put_background, content_ui }
    }
}

impl Prepared {
    /// The rectangle that the frame takes in its parent: what the content
    /// used, and the margin around it.
    pub open spec fn outer_rect(self, content: Ui) -> Rect {
        self.frame.inner_margin.spec_around(content.min_rect)
    }

    /// The state after `end`: the background is drawn into its slot, and
    /// the frame's rectangle is registered.
    pub open spec fn spec_end(self, ctx: PassView, ui: Ui, content: Ui) -> PassView {
        ui.painter.spec_set(
            ctx,
            self.where_to_put_background,
            self.frame.spec_paint(content.min_rect),
        ).interact(self.outer_rect(content).spec_round_to_grid(ctx.pixel_size), ui.auto_id(), Sense::spec_hover())
    }

    /// The response of `end`.
    pub open spec fn response(self, ctx: PassView, ui: Ui, content: Ui) -> Response {
        ctx.response_to(
            self.outer_rect(content).spec_round_to_grid(ctx.pixel_size),
            ui.auto_id(),
            Sense::spec_hover(),
        )
    }

    /// Ends a frame whose content was laid out in `content`: draws the
    /// background into the slot kept for it, and takes the frame's
    /// rectangle in `ui`.
    pub fn end(self, ctx: &mut PassContext, ui: &mut Ui, content: Ui) -> (r: Response)
        ensures
            final(ctx)@ == self.spec_end(old(ctx)@, *old(ui), content),
            *final(ui) == old(ui).spec_advance_cursor_after_rect(
                self.outer_rect(content).spec_round_to_grid(old(ctx)@.pixel_size),
            ),
            r == self.response(old(ctx)@, *old(ui), content),
    {
        let content_rect = content.min_rect();
        let shape = Shape::Rect {
            rect: self.frame.inner_margin.around(content_rect),
            corner_radius: self.frame.corner_radius,
            fill: self.frame.fill,
            stroke: self.frame.stroke,
            stroke_kind: StrokeKind::Inside,
        };
        ui.painter.set(ctx, self.where_to_put_background, shape);
        ui.allocate_rect(ctx, self.frame.inner_margin.around(content_rect), Sense::hover())
    }
}

} // verus!
