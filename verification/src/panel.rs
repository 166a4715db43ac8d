//! Panels: regions along the edges of the screen, or of another region, that
//! claim their space from a shared budget in the order in which they are shown.
//!
//! The first panel shown is the outermost; the central panel comes last.

use vstd::prelude::*;
use crate::context::{CursorIcon, InnerResponse, PassContext, PassState, PassView, Response, Sense};
use crate::geom::{Pos2, Rangei, Rect, Vec2};
use crate::id::{lookup, Id, IdSalt};
use crate::layers::LayerId;
use crate::num::{at_least, at_most, half_floor, lerp, lerp_int, max_int, min_int, sat, sat_add, sat_sub, scale, scale_int, ONE};
use crate::shape::{hline, hline_spec, vline, vline_spec, Shape, Stroke};
use crate::style::Style;
use crate::ui::{Frame, Layout, Prepared, Ui, UiBuilder, UiKind};

verus! {

/// What is kept of a panel from one pass to the next: the rectangle that its
/// content used.
#[derive(Clone, Copy, Debug, PartialEq, Eq, Structural)]
pub struct PanelState {
    pub rect: Rect,
}

impl PanelState {
    /// The state kept for the panel `bar_id`, if it was shown before.
    pub fn load(ctx: &PassContext, bar_id: Id) -> (state: Option<PanelState>)
        ensures
            state == lookup(ctx@.panels, bar_id),
    {
        ctx.load_panel(bar_id)
    }

    /// The size of the panel in the pass before.
    pub open spec fn spec_size(&self) -> Vec2 {
        self.rect.spec_size()
    }

    /// The size of the panel in the pass before.
    #[verifier::when_used_as_spec(spec_size)]
    pub fn size(&self) -> (v: Vec2)
        ensures
            v == self.rect.spec_size(),
    {
        self.rect.size()
    }

    /// Keeps this state for the panel `bar_id`.
    pub fn store(self, ctx: &mut PassContext, bar_id: Id)
        ensures
            final(ctx)@ == old(ctx)@.store_panel(bar_id, self),
            lookup(final(ctx)@.panels, bar_id) == Some(self),
    {
        ctx.store_panel(bar_id, self);
    }
}

/// The edge that a panel is attached to.
#[derive(Clone, Copy, Debug, PartialEq, Eq, Structural)]
pub enum Edge {
    Left,
    Right,
    Top,
    Bottom,
}

impl Edge {
    /// The edge across.
    pub open spec fn spec_opposite(self) -> Edge {
        match self {
            Edge::Left => Edge::Right,
            Edge::Right => Edge::Left,
            Edge::Top => Edge::Bottom,
            Edge::Bottom => Edge::Top,
        }
    }

    /// The edge across.
    #[verifier::when_used_as_spec(spec_opposite)]
    pub fn opposite(self) -> (e: Edge)
        ensures
            e == self.spec_opposite(),
    {
        match self {
            Edge::Left => Edge::Right,
            Edge::Right => Edge::Left,
            Edge::Top => Edge::Bottom,
            Edge::Bottom => Edge::Top,
        }
    }

    /// Whether the edge is the left or the right one, so that a panel on it
    /// has a width to negotiate.
    pub open spec fn spec_is_side(self) -> bool {
        self == Edge::Left || self == Edge::Right
    }

    /// Whether the edge is the left or the right one, so that a panel on it
    /// has a width to negotiate.
    #[verifier::when_used_as_spec(spec_is_side)]
    pub fn is_side(self) -> (r: bool)
        ensures
            r == self.spec_is_side(),
    {
        match self {
            Edge::Left => true,
            Edge::Right => true,
            Edge::Top => false,
            Edge::Bottom => false,
        }
    }

    /// The extent of `rect` across the edge: its width for a side, its
    /// height for top and bottom.
    pub open spec fn spec_extent_of(self, rect: Rect) -> i32 {
        if self.spec_is_side() {
            rect.spec_width()
        } else {
            rect.spec_height()
        }
    }

    /// The extent of `rect` across the edge: its width for a side, its
    /// height for top and bottom.
    #[verifier::when_used_as_spec(spec_extent_of)]
    pub fn extent_of(self, rect: Rect) -> (r: i32)
        ensures
            r == self.spec_extent_of(rect),
    {
        if self.is_side() {
            rect.width()
        } else {
            rect.height()
        }
    }

    /// `rect` cut down, or grown, to `extent`, its side on this edge fixed.
    pub open spec fn spec_with_extent(self, rect: Rect, extent: i32) -> Rect {
        match self {
            Edge::Left => Rect {
                min: rect.min,
                max: Pos2 { x: sat(rect.min.x + extent) as i32, y: rect.max.y },
            },
            Edge::Right => Rect {
                min: Pos2 { x: sat(rect.max.x - extent) as i32, y: rect.min.y },
                max: rect.max,
            },
            Edge::Top => Rect {
                min: rect.min,
                max: Pos2 { x: rect.max.x, y: sat(rect.min.y + extent) as i32 },
            },
            Edge::Bottom => Rect {
                min: Pos2 { x: rect.min.x, y: sat(rect.max.y - extent) as i32 },
                max: rect.max,
            },
        }
    }

    /// `rect` cut down, or grown, to `extent`, its side on this edge fixed.
    #[verifier::when_used_as_spec(spec_with_extent)]
    pub fn with_extent(self, rect: Rect, extent: i32) -> (r: Rect)
        ensures
            r == self.spec_with_extent(rect, extent),
    {
        let mut r = rect;
        match self {
            Edge::Left => {
                r.max.x = sat_add(rect.min.x, extent);
            },
            Edge::Right => {
                r.min.x = sat_sub(rect.max.x, extent);
            },
            Edge::Top => {
                r.max.y = sat_add(rect.min.y, extent);
            },
            Edge::Bottom => {
                r.min.y = sat_sub(rect.max.y, extent);
            },
        }
        r
    }

    /// The coordinate of this edge of `rect`.
    pub open spec fn spec_coord(self, rect: Rect) -> i32 {
        match self {
            Edge::Left => rect.min.x,
            Edge::Right => rect.max.x,
            Edge::Top => rect.min.y,
            Edge::Bottom => rect.max.y,
        }
    }

    /// The coordinate of this edge of `rect`.
    #[verifier::when_used_as_spec(spec_coord)]
    pub fn coord(self, rect: Rect) -> (r: i32)
        ensures
            r == self.spec_coord(rect),
    {
        match self {
            Edge::Left => rect.min.x,
            Edge::Right => rect.max.x,
            Edge::Top => rect.min.y,
            Edge::Bottom => rect.max.y,
        }
    }

    /// The coordinate of `pos` across the edge.
    pub open spec fn spec_along(self, pos: Pos2) -> i32 {
        if self.spec_is_side() {
            pos.x
        } else {
            pos.y
        }
    }

    /// The coordinate of `pos` across the edge.
    #[verifier::when_used_as_spec(spec_along)]
    pub fn along(self, pos: Pos2) -> (r: i32)
        ensures
            r == self.spec_along(pos),
    {
        if self.is_side() {
            pos.x
        } else {
            pos.y
        }
    }

    /// The outward direction of the edge along its axis: `-1` for left and
    /// top, `1` for right and bottom.
    pub open spec fn spec_sign(self) -> i32 {
        match self {
            Edge::Left => -1i32,
            Edge::Right => 1i32,
            Edge::Top => -1i32,
            Edge::Bottom => 1i32,
        }
    }

    /// The outward direction of the edge along its axis: `-1` for left and
    /// top, `1` for right and bottom.
    #[verifier::when_used_as_spec(spec_sign)]
    pub fn sign(self) -> (r: i32)
        ensures
            r == self.spec_sign(),
    {
        match self {
            Edge::Left => -1,
            Edge::Right => 1,
            Edge::Top => -1,
            Edge::Bottom => 1,
        }
    }

    /// The budget after a top-level panel on this edge used `rect`: the
    /// panel is counted from the edge of `available`, which is what was
    /// available when the panel began, to the far side of `rect`.
    pub open spec fn allocate(self, pass: PassState, available: Rect, rect: Rect) -> PassState {
        match self {
            Edge::Left => pass.spec_allocate_left_panel(Rect::spec_from_min_max(available.min, rect.max)),
            Edge::Right => pass.spec_allocate_right_panel(Rect::spec_from_min_max(rect.min, available.max)),
            Edge::Top => pass.spec_allocate_top_panel(Rect::spec_from_min_max(available.min, rect.max)),
            Edge::Bottom => pass.spec_allocate_bottom_panel(
                Rect::spec_from_min_max(rect.min, available.max),
            ),
        }
    }

    /// The cursor of the parent region after a panel on this edge used
    /// `rect`: what lies beyond the panel is left.
    pub open spec fn carve(self, cursor: Rect, rect: Rect) -> Rect {
        match self {
            Edge::Left => Rect { min: Pos2 { x: rect.max.x, y: cursor.min.y }, max: cursor.max },
            Edge::Right => Rect { min: cursor.min, max: Pos2 { x: rect.min.x, y: cursor.max.y } },
            Edge::Top => Rect { min: Pos2 { x: cursor.min.x, y: rect.max.y }, max: cursor.max },
            Edge::Bottom => Rect { min: cursor.min, max: Pos2 { x: cursor.max.x, y: rect.min.y } },
        }
    }

    /// What the region of a panel on this edge is part of.
    pub open spec fn ui_kind(self) -> UiKind {
        match self {
            Edge::Left => UiKind::LeftPanel,
            Edge::Right => UiKind::RightPanel,
            Edge::Top => UiKind::TopPanel,
            Edge::Bottom => UiKind::BottomPanel,
        }
    }
}

/// The extent that a panel gets: what it wants, brought into its range, and
/// then cut to what is available.
pub open spec fn resolve_extent(wanted: i32, range: Rangei, available: i32) -> i32 {
    min_int(range.spec_clamp(wanted) as int, available as int) as i32
}

/// `x` brought into `range`, whose ends are put in order first.
pub fn clamp_to_range(x: i32, range: Rangei) -> (r: i32)
    ensures
        r == range.spec_clamp(x),
{
    range.clamp(x)
}

/// The distance between two coordinates, saturating.
pub open spec fn distance(a: i32, b: i32) -> i32 {
    if a >= b {
        sat(a - b) as i32
    } else {
        sat(b - a) as i32
    }
}

/// The pointer shape over the handle of a panel of the given extent: at or
/// below the least extent it points the one way the panel can go, which is
/// away from its edge; at or above the greatest it points back; in between
/// it points both ways.
pub open spec fn resize_icon(edge: Edge, extent: i32, range: Rangei) -> CursorIcon {
    if extent <= range.min {
        match edge {
            Edge::Left => CursorIcon::ResizeEast,
            Edge::Right => CursorIcon::ResizeWest,
            Edge::Top => CursorIcon::ResizeSouth,
            Edge::Bottom => CursorIcon::ResizeNorth,
        }
    } else if extent < range.max {
        if edge.spec_is_side() {
            CursorIcon::ResizeHorizontal
        } else {
            CursorIcon::ResizeVertical
        }
    } else {
        match edge {
            Edge::Left => CursorIcon::ResizeWest,
            Edge::Right => CursorIcon::ResizeEast,
            Edge::Top => CursorIcon::ResizeNorth,
            Edge::Bottom => CursorIcon::ResizeSouth,
        }
    }
}

/// The stroke of a panel's separator: that of an active widget while the
/// panel is resized, else that of a hovered one while the pointer is over
/// the handle, else the dim static one if the line is to be shown at all.
pub open spec fn separator_stroke(style: Style, is_resizing: bool, resize_hover: bool, show: bool) -> Stroke {
    if is_resizing {
        style.visuals.widgets.active.fg_stroke
    } else if resize_hover {
        style.visuals.widgets.hovered.fg_stroke
    } else if show {
        style.visuals.widgets.noninteractive.bg_stroke
    } else {
        Stroke::spec_none()
    }
}

/// The separator of a panel on `edge` whose content used `rect`: a line
/// along the inner edge of `rect`, moved inwards by half its width so that
/// it does not leave the panel, and as long as the panel.
pub open spec fn separator_shape(edge: Edge, rect: Rect, panel_rect: Rect, stroke: Stroke) -> Shape {
    let at = sat(edge.spec_opposite().spec_coord(rect) + edge.spec_sign() * (stroke.width as int / 2)) as i32;
    if edge.spec_is_side() {
        vline_spec(at, panel_rect.spec_y_range(), stroke)
    } else {
        hline_spec(panel_rect.spec_x_range(), at, stroke)
    }
}

/// The stroke of a panel's separator.
fn pick_separator_stroke(style: Style, is_resizing: bool, resize_hover: bool, show: bool) -> (s: Stroke)
    ensures
        s == separator_stroke(style, is_resizing, resize_hover, show),
{
    if is_resizing {
        style.visuals.widgets.active.fg_stroke
    } else if resize_hover {
        style.visuals.widgets.hovered.fg_stroke
    } else if show {
        style.visuals.widgets.noninteractive.bg_stroke
    } else {
        Stroke::none()
    }
}

/// The separator of a panel.
fn separator(edge: Edge, rect: Rect, panel_rect: Rect, stroke: Stroke) -> (s: Shape)
    ensures
        s == separator_shape(edge, rect, panel_rect, stroke),
{
    // The line is drawn on the inside of the panel.
    let inward: i32 = if edge.sign() < 0 {
        -half_floor(stroke.width)
    } else {
        half_floor(stroke.width)
    };
    let at: i32 = sat_add(edge.opposite().coord(rect), inward);
    if edge.is_side() {
        vline(at, panel_rect.y_range(), stroke)
    } else {
        hline(panel_rect.x_range(), at, stroke)
    }
}

/// The region in which the handle of a panel senses drags: its inner edge,
/// widened by the grab radius to both sides.
pub open spec fn resize_rect(edge: Edge, panel_rect: Rect, grab_radius: i32) -> Rect {
    let at = edge.spec_opposite().spec_coord(panel_rect);
    if edge.spec_is_side() {
        Rect::spec_from_x_y_ranges(Rangei::spec_point(at), panel_rect.spec_y_range()).spec_expand2(
            Vec2 { x: grab_radius, y: 0 },
        )
    } else {
        Rect::spec_from_x_y_ranges(panel_rect.spec_x_range(), Rangei::spec_point(at)).spec_expand2(
            Vec2 { x: 0, y: grab_radius },
        )
    }
}

/// A panel on one edge of a region, as configured: what `SidePanel` and
/// `TopBottomPanel` have in common.
#[derive(Clone, Copy, Debug, PartialEq, Eq, Structural)]
pub struct EdgePanel {
    pub edge: Edge,
    pub id: Id,
    pub frame: Option<Frame>,
    pub resizable: bool,
    pub show_separator_line: bool,
    /// The extent in the first pass; where absent, the height of a widget
    /// that can be clicked, and the frame's margin.
    pub default_extent: Option<i32>,
    pub extent_range: Rangei,
}

/// What a panel has settled before its content runs.
#[derive(Clone, Copy, Debug, PartialEq, Eq, Structural)]
pub struct Negotiated {
    /// The extent that layout goes by.
    pub extent: i32,
    /// The rectangle checked for a clash of identifiers: the panel's before
    /// a drag is applied and before rounding.
    pub first_rect: Rect,
    /// The panel's rectangle, on device pixels.
    pub panel_rect: Rect,
    pub resize_hover: bool,
    pub is_resizing: bool,
}

/// What a panel leaves behind.
pub struct Shown {
    pub ctx: PassView,
    pub ui: Ui,
    pub response: Response,
}

/// The state of the handle of a panel after its content ran.
pub struct Handled {
    pub ctx: PassView,
    pub resize_hover: bool,
    pub is_resizing: bool,
}

/// A panel whose content is still to come.
#[derive(Clone, Copy, Debug, PartialEq, Eq, Structural)]
pub struct Begun {
    pub negotiated: Negotiated,
    /// The region of the panel.
    pub panel_ui: Ui,
    /// The frame as it waits for the content.
    pub prepared: Prepared,
    /// The region to lay the content out in.
    pub content_ui: Ui,
}

impl EdgePanel {
    /// The frame drawn around the content.
    pub open spec fn frame_in(self, ui: Ui) -> Frame {
        match self.frame {
            Some(f) => f,
            None => Frame::spec_side_top_panel(ui.style),
        }
    }

    /// The extent asked for in this pass: that of the rectangle kept from
    /// the pass before, or the default in the first pass.
    pub open spec fn wanted_extent(self, ctx: PassView, ui: Ui) -> i32 {
        match lookup(ctx.panels, self.id) {
            Some(state) => self.edge.spec_extent_of(state.rect),
            None => match self.default_extent {
                Some(d) => d,
                None => sat(
                    ui.style.spacing.interact_size.y + self.frame_in(ui).inner_margin.spec_sum().y,
                ) as i32,
            },
        }
    }

    /// The identifier of the resize handle.
    pub open spec fn resize_id(self) -> Id {
        self.id.spec_with(IdSalt::Resize)
    }

    /// What the host reported of the handle, if the panel can be resized.
    pub open spec fn seen(self, ctx: PassView) -> Option<Response> {
        if self.resizable {
            ctx.read_response(self.resize_id())
        } else {
            None
        }
    }

    /// Where the pointer drags the handle, if it does.
    pub open spec fn dragged_to(self, ctx: PassView) -> Option<Pos2> {
        match self.seen(ctx) {
            Some(r) => if r.dragged {
                r.interact_pointer_pos
            } else {
                None
            },
            None => None,
        }
    }

    /// What the panel settles before its content runs. The pointer is read
    /// as the host reported it for the handle's place in the pass before: a
    /// drag then moves the panel in this very pass.
    #[verifier::opaque]
    pub open spec fn negotiate(self, ctx: PassView, ui: Ui) -> Negotiated {
        let available = ui.spec_available_rect_before_wrap();
        let room = self.edge.spec_extent_of(available);
        let first = resolve_extent(self.wanted_extent(ctx, ui), self.extent_range, room);
        let first_rect = self.edge.spec_with_extent(available, first);
        let extent = match self.dragged_to(ctx) {
            Some(pointer) => resolve_extent(
                distance(self.edge.spec_along(pointer), self.edge.spec_coord(first_rect)),
                self.extent_range,
                room,
            ),
            None => first,
        };
        Negotiated {
            extent,
            first_rect,
            panel_rect: match self.dragged_to(ctx) {
                Some(pointer) => self.edge.spec_with_extent(first_rect, extent),
                None => first_rect,
            }.spec_round_to_grid(ctx.pixel_size),
            resize_hover: match self.seen(ctx) {
                Some(r) => r.hovered,
                None => false,
            },
            is_resizing: match self.seen(ctx) {
                Some(r) => r.dragged,
                None => false,
            },
        }
    }

    /// Settles the panel's extent and rectangle, and records the use of its
    /// identifier.
    fn settle(&self, ctx: &mut PassContext, ui: &Ui) -> (n: Negotiated)
        ensures
            n == self.negotiate(old(ctx)@, *ui),
            final(ctx)@ == old(ctx)@.check_for_id_clash(self.id, n.first_rect),
    {
        proof {
            reveal(EdgePanel::negotiate);
        }
        let edge = self.edge;
        let frame = match self.frame {
            Some(f) => f,
            None => Frame::side_top_panel(ui.style()),
        };
        let available_rect = ui.available_rect_before_wrap();
        let room: i32 = edge.extent_of(available_rect);
        let mut extent: i32 = match PanelState::load(ctx, self.id) {
            Some(state) => edge.extent_of(state.rect),
            None => match self.default_extent {
                Some(d) => d,
                None => sat_add(ui.style().spacing.interact_size.y, frame.inner_margin.sum().y),
            },
        };
        extent = at_most(clamp_to_range(extent, self.extent_range), room);
        let first_rect = edge.with_extent(available_rect, extent);
        let mut panel_rect = first_rect;
        ctx.check_for_id_clash(self.id, panel_rect);

        let resize_id = self.id.with(IdSalt::Resize);
        let mut resize_hover = false;
        let mut is_resizing = false;
        if self.resizable {
            // The pointer is read before the content is laid out, as it was
            // reported for the handle's place in the pass before.
            match ctx.read_response(resize_id) {
                Some(resize_response) => {
                    resize_hover = resize_response.hovered();
                    is_resizing = resize_response.dragged();
                    if is_resizing {
                        match resize_response.interact_pointer_pos() {
                            Some(pointer) => {
                                let from: i32 = edge.coord(panel_rect);
                                let to: i32 = edge.along(pointer);
                                extent = if to >= from {
                                    sat_sub(to, from)
                                } else {
                                    sat_sub(from, to)
                                };
                                extent = at_most(clamp_to_range(extent, self.extent_range), room);
                                panel_rect = edge.with_extent(panel_rect, extent);
                            },
                            None => {},
                        }
                    }
                },
                None => {},
            }
        }
        panel_rect = panel_rect.round_to_grid(ctx.pixel_size());
        Negotiated { extent, first_rect, panel_rect, resize_hover, is_resizing }
    }

    /// The region of the panel: bounded and clipped by the panel's
    /// rectangle, so that content which overflows is not shown.
    pub open spec fn panel_ui(self, ui: Ui, panel_rect: Rect) -> Ui {
        ui.spec_new_child(
            UiBuilder::spec_new().spec_id_salt(self.id).spec_ui_stack_info(self.edge.ui_kind()).spec_max_rect(
                panel_rect,
            ).spec_layout(Layout::TopDown),
        ).spec_expand_to_include_rect(panel_rect).spec_with_clip_rect(panel_rect)
    }

    /// Makes the region of the panel.
    fn make_panel_ui(&self, ui: &Ui, panel_rect: Rect) -> (panel_ui: Ui)
        ensures
            panel_ui == self.panel_ui(*ui, panel_rect),
    {
        let kind = match self.edge {
            Edge::Left => UiKind::LeftPanel,
            Edge::Right => UiKind::RightPanel,
            Edge::Top => UiKind::TopPanel,
            Edge::Bottom => UiKind::BottomPanel,
        };
        let mut panel_ui = ui.new_child(
            UiBuilder::new().id_salt(self.id).ui_stack_info(kind).max_rect(panel_rect).layout(
                Layout::TopDown,
            ),
        );
        panel_ui.expand_to_include_rect(panel_rect);
        panel_ui.set_clip_rect(panel_rect);
        panel_ui
    }

    /// The region that the content is given: inside the frame, and already
    /// as large as the panel must be, so that the frame fills the panel
    /// along the edge and is no thinner than the least extent.
    #[verifier::opaque]
    pub open spec fn content_ui_in(self, ui: Ui, panel_rect: Rect) -> Ui {
        let frame = self.frame_in(ui);
        let inner = frame.content_ui(self.panel_ui(ui, panel_rect));
        if self.edge.spec_is_side() {
            inner.spec_set_min_height(inner.max_rect.spec_height()).spec_set_min_width(
                max_int(sat(self.extent_range.min - frame.inner_margin.spec_sum().x), 0) as i32,
            )
        } else {
            inner.spec_set_min_width(inner.max_rect.spec_width()).spec_set_min_height(
                max_int(sat(self.extent_range.min - frame.inner_margin.spec_sum().y), 0) as i32,
            )
        }
    }

    /// The region that the content is given.
    #[verifier::opaque]
    pub open spec fn content_ui(self, ctx: PassView, ui: Ui) -> Ui {
        self.content_ui_in(ui, self.negotiate(ctx, ui).panel_rect)
    }

    /// The frame as it waits for the content, begun in the state `clashed`.
    pub open spec fn prepared_in(self, clashed: PassView, ui: Ui, panel_rect: Rect) -> Prepared {
        let panel_ui = self.panel_ui(ui, panel_rect);
        Prepared {
            frame: self.frame_in(ui),
            where_to_put_background: panel_ui.painter.next_idx(clashed),
            content_ui: self.frame_in(ui).content_ui(panel_ui),
        }
    }

    /// The state in which the content starts: the identifier is checked
    /// for a clash, and a slot is kept for the frame's background.
    #[verifier::opaque]
    pub open spec fn before_content(self, ctx: PassView, ui: Ui) -> PassView {
        let n = self.negotiate(ctx, ui);
        self.frame_in(ui).spec_begin(
            ctx.check_for_id_clash(self.id, n.first_rect),
            self.panel_ui(ui, n.panel_rect),
        )
    }

    /// Begins the frame and sizes the region for the content.
    fn open_frame(&self, ctx: &mut PassContext, ui: &Ui, panel_ui: &Ui, panel_rect: Rect) -> (out: (
        Prepared,
        Ui,
    ))
        requires
            *panel_ui == self.panel_ui(*ui, panel_rect),
        ensures
            out.0 == self.prepared_in(old(ctx)@, *ui, panel_rect),
            out.1 == self.content_ui_in(*ui, panel_rect),
            final(ctx)@ == self.frame_in(*ui).spec_begin(old(ctx)@, *panel_ui),
    {
        proof {
            reveal(EdgePanel::content_ui_in);
        }
        let frame = match self.frame {
            Some(f) => f,
            None => Frame::side_top_panel(ui.style()),
        };
        let prepared = frame.begin(ctx, panel_ui);
        let mut content_ui = prepared.content_ui;
        if self.edge.is_side() {
            content_ui.set_min_height(content_ui.max_rect().height());
            content_ui.set_min_width(at_least(sat_sub(self.extent_range.min, frame.inner_margin.sum().x), 0));
        } else {
            content_ui.set_min_width(content_ui.max_rect().width());
            content_ui.set_min_height(
                at_least(sat_sub(self.extent_range.min, frame.inner_margin.sum().y), 0),
            );
        }
        (prepared, content_ui)
    }

    /// The parent region after the panel used `rect`: its cursor is cut
    /// back to what lies beyond the panel.
    pub open spec fn carved(self, ui: Ui, rect: Rect) -> Ui {
        (Ui { cursor: self.edge.carve(ui.cursor, rect), ..ui }).spec_expand_to_include_rect(rect)
    }

    /// Cuts the parent's cursor back to what lies beyond the panel.
    fn carve_parent(&self, ui: &mut Ui, rect: Rect)
        ensures
            *final(ui) == self.carved(*old(ui), rect),
    {
        let mut cursor = ui.cursor();
        match self.edge {
            Edge::Left => {
                cursor.min.x = rect.max.x;
            },
            Edge::Right => {
                cursor.max.x = rect.min.x;
            },
            Edge::Top => {
                cursor.min.y = rect.max.y;
            },
            Edge::Bottom => {
                cursor.max.y = rect.min.y;
            },
        }
        ui.set_cursor(cursor);
        ui.expand_to_include_rect(rect);
    }

    /// The handle after the content ran. A panel that can be resized
    /// registers its handle now, on top of the content, so that the content
    /// does not take its drags; the pointer shape is set while the handle is
    /// hovered or dragged.
    #[verifier::opaque]
    pub open spec fn handled(self, framed: PassView, ui: Ui, n: Negotiated) -> Handled {
        let handle = resize_rect(self.edge, n.panel_rect, ui.style.interaction.resize_grab_radius_side);
        let sensed = framed.response_to(handle, self.resize_id(), Sense::spec_drag());
        let resize_hover = if self.resizable {
            sensed.hovered
        } else {
            n.resize_hover
        };
        let is_resizing = if self.resizable {
            sensed.dragged
        } else {
            n.is_resizing
        };
        let registered = if self.resizable {
            framed.interact(handle, self.resize_id(), Sense::spec_drag())
        } else {
            framed
        };
        Handled {
            ctx: if resize_hover || is_resizing {
                registered.set_cursor_icon(resize_icon(self.edge, n.extent, self.extent_range))
            } else {
                registered
            },
            resize_hover,
            is_resizing,
        }
    }

    /// Registers the handle and sets the pointer shape.
    fn handle(&self, ctx: &mut PassContext, ui: &Ui, n: Negotiated) -> (out: (bool, bool))
        ensures
            final(ctx)@ == self.handled(old(ctx)@, *ui, n).ctx,
            out.0 == self.handled(old(ctx)@, *ui, n).resize_hover,
            out.1 == self.handled(old(ctx)@, *ui, n).is_resizing,
    {
        proof {
            reveal(EdgePanel::handled);
        }
        let edge = self.edge;
        let mut resize_hover = n.resize_hover;
        let mut is_resizing = n.is_resizing;
        if self.resizable {
            let at: i32 = edge.opposite().coord(n.panel_rect);
            let radius: i32 = ui.style().interaction.resize_grab_radius_side;
            let handle = if edge.is_side() {
                Rect::from_x_y_ranges(Rangei::point(at), n.panel_rect.y_range()).expand2(
                    Vec2 { x: radius, y: 0 },
                )
            } else {
                Rect::from_x_y_ranges(n.panel_rect.x_range(), Rangei::point(at)).expand2(
                    Vec2 { x: 0, y: radius },
                )
            };
            let resize_response = ui.interact(ctx, handle, self.id.with(IdSalt::Resize), Sense::drag());
            resize_hover = resize_response.hovered();
            is_resizing = resize_response.dragged();
        }
        if resize_hover || is_resizing {
            let extent: i32 = n.extent;
            let cursor_icon = if extent <= self.extent_range.min {
                match edge {
                    Edge::Left => CursorIcon::ResizeEast,
                    Edge::Right => CursorIcon::ResizeWest,
                    Edge::Top => CursorIcon::ResizeSouth,
                    Edge::Bottom => CursorIcon::ResizeNorth,
                }
            } else if extent < self.extent_range.max {
                if edge.is_side() {
                    CursorIcon::ResizeHorizontal
                } else {
                    CursorIcon::ResizeVertical
                }
            } else {
                match edge {
                    Edge::Left => CursorIcon::ResizeWest,
                    Edge::Right => CursorIcon::ResizeEast,
                    Edge::Top => CursorIcon::ResizeNorth,
                    Edge::Bottom => CursorIcon::ResizeSouth,
                }
            };
            ctx.set_cursor_icon(cursor_icon);
        }
        (resize_hover, is_resizing)
    }

    /// The state after the panel is done: the rectangle that the content
    /// used is kept for the next pass, and the separator is drawn.
    #[verifier::opaque]
    pub open spec fn sealed(self, handled: Handled, ui: Ui, n: Negotiated, rect: Rect) -> PassView {
        let stroke = separator_stroke(
            ui.style,
            handled.is_resizing,
            handled.resize_hover,
            self.show_separator_line,
        );
        ui.painter.spec_add(
            handled.ctx.store_panel(self.id, PanelState { rect }),
            separator_shape(self.edge, rect, n.panel_rect, stroke),
        )
    }

    /// Keeps the panel's rectangle and draws the separator.
    fn seal(
        &self,
        ctx: &mut PassContext,
        ui: &Ui,
        n: Negotiated,
        rect: Rect,
        resize_hover: bool,
        is_resizing: bool,
    )
        ensures
            final(ctx)@ == self.sealed(
                Handled { ctx: old(ctx)@, resize_hover, is_resizing },
                *ui,
                n,
                rect,
            ),
    {
        proof {
            reveal(EdgePanel::sealed);
        }
        (PanelState { rect }).store(ctx, self.id);
        let stroke = pick_separator_stroke(ui.style(), is_resizing, resize_hover, self.show_separator_line);
        let _ = ui.painter().add(ctx, separator(self.edge, rect, n.panel_rect, stroke));
    }

    /// The panel as it waits for its content.
    #[verifier::opaque]
    pub open spec fn begun(self, ctx: PassView, ui: Ui) -> Begun {
        let n = self.negotiate(ctx, ui);
        Begun {
            negotiated: n,
            panel_ui: self.panel_ui(ui, n.panel_rect),
            prepared: self.prepared_in(ctx.check_for_id_clash(self.id, n.first_rect), ui, n.panel_rect),
            content_ui: self.content_ui_in(ui, n.panel_rect),
        }
    }

    /// Begins the panel inside `ui`: settles its rectangle and prepares the
    /// region that its content is to be laid out in.
    pub fn begin_inside(&self, ctx: &mut PassContext, ui: &Ui) -> (begun: Begun)
        ensures
            begun == self.begun(old(ctx)@, *ui),
            begun.content_ui == self.content_ui(old(ctx)@, *ui),
            final(ctx)@ == self.before_content(old(ctx)@, *ui),
    {
        proof {
            reveal(EdgePanel::begun);
            reveal(EdgePanel::before_content);
            reveal(EdgePanel::content_ui);
        }
        let n = self.settle(ctx, ui);
        let panel_ui = self.make_panel_ui(ui, n.panel_rect);
        let (prepared, content_ui) = self.open_frame(ctx, ui, &panel_ui, n.panel_rect);
        Begun { negotiated: n, panel_ui, prepared, content_ui }
    }

    /// What a panel that was begun leaves behind, given the state `after`
    /// and the region `content` in which the content ended. In order: the
    /// frame is closed around what the content used; the parent's cursor is
    /// cut back; the handle is registered; the panel's rectangle is kept;
    /// the separator is drawn.
    #[verifier::opaque]
    pub open spec fn ended(self, begun: Begun, after: PassView, ui: Ui, content: Ui) -> Shown {
        let response = begun.prepared.response(after, begun.panel_ui, content);
        let framed = begun.prepared.spec_end(after, begun.panel_ui, content);
        let new_ui = self.carved(ui, response.rect);
        Shown {
            ctx: self.sealed(
                self.handled(framed, new_ui, begun.negotiated),
                new_ui,
                begun.negotiated,
                response.rect,
            ),
            ui: new_ui,
            response,
        }
    }

    /// Ends a panel that was begun in `ui`, around the content that was
    /// laid out in `content`.
    pub fn end_inside(&self, ctx: &mut PassContext, ui: &mut Ui, begun: Begun, content: Ui) -> (response:
        Response)
        ensures
            (Shown { ctx: final(ctx)@, ui: *final(ui), response }) == self.ended(
                begun,
                old(ctx)@,
                *old(ui),
                content,
            ),
    {
        proof {
            reveal(EdgePanel::ended);
        }
        let mut panel_ui = begun.panel_ui;
        let response = begun.prepared.end(ctx, &mut panel_ui, content);
        let rect = response.rect;
        self.carve_parent(ui, rect);
        let (resize_hover, is_resizing) = self.handle(ctx, ui, begun.negotiated);
        self.seal(ctx, ui, begun.negotiated, rect, resize_hover, is_resizing);
        response
    }

    /// What the panel leaves behind, given the state `after` and the region
    /// `content` in which the content ended.
    #[verifier::opaque]
    pub open spec fn after_content(self, ctx: PassView, ui: Ui, after: PassView, content: Ui) -> Shown {
        self.ended(self.begun(ctx, ui), after, ui, content)
    }

    /// Whether `shown` and `inner` are what showing the panel in `ui`
    /// leaves behind and returns, for some run of `add_contents` on the
    /// content region.
    #[verifier::opaque]
    pub open spec fn shown_inside<R, F: FnOnce(PassContext, Ui) -> (PassContext, Ui, R)>(
        self,
        ctx: PassView,
        ui: Ui,
        add_contents: F,
        shown: Shown,
        inner: R,
    ) -> bool {
        exists|before: PassContext, after: PassContext, content: Ui|
            before@ == self.before_content(ctx, ui) && #[trigger] add_contents.ensures(
                (before, self.content_ui(ctx, ui)),
                (after, content, inner),
            ) && shown == self.after_content(ctx, ui, after@, content)
    }

    /// Shows the panel inside `ui`, on the edge that it is configured for.
    pub fn show_inside_dyn<R, F: FnOnce(PassContext, Ui) -> (PassContext, Ui, R)>(
        self,
        ctx: &mut PassContext,
        ui: &mut Ui,
        add_contents: F,
    ) -> (out: InnerResponse<R>)
        requires
            self.callable_inside(old(ctx)@, *old(ui), add_contents),
        ensures
            self.shown_inside(
                old(ctx)@,
                *old(ui),
                add_contents,
                Shown { ctx: final(ctx)@, ui: *final(ui), response: out.response },
                out.inner,
            ),
    {
        proof {
            reveal(EdgePanel::after_content);
            reveal(EdgePanel::callable_inside);
            reveal(EdgePanel::shown_inside);
        }
        let begun = self.begin_inside(ctx, ui);
        let before = ctx.take();
        let ghost before_g = before;
        let (after, content, inner) = add_contents(before, begun.content_ui);
        let ghost after_g = after;
        *ctx = after;
        let response = self.end_inside(ctx, ui, begun, content);
        proof {
            assert(add_contents.ensures(
                (before_g, self.content_ui(old(ctx)@, *old(ui))),
                (after_g, content, inner),
            ));
        }
        InnerResponse { inner, response }
    }

    /// Whether `add_contents` may be called on the content region of this
    /// panel shown in `ui`.
    #[verifier::opaque]
    pub open spec fn callable_inside<R, F: FnOnce(PassContext, Ui) -> (PassContext, Ui, R)>(
        self,
        ctx: PassView,
        ui: Ui,
        add_contents: F,
    ) -> bool {
        forall|before: PassContext|
            before@ == self.before_content(ctx, ui) ==> add_contents.requires(
                (before, self.content_ui(ctx, ui)),
            )
    }

    /// The region of a top-level panel: all that is available of the
    /// screen, on the background layer, clipped by the screen alone.
    #[verifier::opaque]
    pub open spec fn top_ui(self, ctx: PassView) -> Ui {
        Ui::spec_new(
            ctx,
            self.id,
            UiBuilder::spec_new().spec_layer_id(LayerId::spec_background()).spec_max_rect(
                ctx.pass.available_rect,
            ),
        ).spec_with_clip_rect(ctx.screen_rect)
    }

    /// Whether `after` and `out` are what showing the panel at the top
    /// level leaves behind and returns: it is shown inside the region of
    /// what is available, and what it used is then taken from the budget.
    #[verifier::opaque]
    pub open spec fn shown<R, F: FnOnce(PassContext, Ui) -> (PassContext, Ui, R)>(
        self,
        ctx: PassView,
        add_contents: F,
        after: PassView,
        out: InnerResponse<R>,
    ) -> bool {
        exists|inside: Shown| #[trigger]
            self.shown_inside(ctx, self.top_ui(ctx), add_contents, inside, out.inner) && inside.response
                == out.response && after == inside.ctx.with_pass(
                self.edge.allocate(inside.ctx.pass, ctx.pass.available_rect, out.response.rect),
            )
    }

    /// Shows the panel at the top level.
    pub fn show_dyn<R, F: FnOnce(PassContext, Ui) -> (PassContext, Ui, R)>(
        self,
        ctx: &mut PassContext,
        add_contents: F,
    ) -> (out: InnerResponse<R>)
        requires
            self.callable_inside(old(ctx)@, self.top_ui(old(ctx)@), add_contents),
        ensures
            self.shown(old(ctx)@, add_contents, final(ctx)@, out),
    {
        proof {
            reveal(EdgePanel::shown);
        }
        let available_rect = ctx.available_rect();
        let mut panel_ui = self.make_top_ui(ctx);
        let inner_response = self.show_inside_dyn(ctx, &mut panel_ui, add_contents);
        let ghost inside = Shown { ctx: ctx@, ui: panel_ui, response: inner_response.response };
        self.allocate(ctx, available_rect, inner_response.response.rect);
        proof {
            assert(self.shown_inside(
                old(ctx)@,
                self.top_ui(old(ctx)@),
                add_contents,
                inside,
                inner_response.inner,
            ));
        }
        inner_response
    }

    /// Whether `shown` and `inner` are what showing the panel in `ui`
    /// leaves behind and returns, for some run of `add_contents` on the
    /// content region and the progress `how_expanded`.
    #[verifier::opaque]
    pub open spec fn shown_inside_at<R, F: FnOnce(PassContext, Ui, i32) -> (PassContext, Ui, R)>(
        self,
        ctx: PassView,
        ui: Ui,
        add_contents: F,
        how_expanded: i32,
        shown: Shown,
        inner: R,
    ) -> bool {
        exists|before: PassContext, after: PassContext, content: Ui|
            before@ == self.before_content(ctx, ui) && #[trigger] add_contents.ensures(
                (before, self.content_ui(ctx, ui), how_expanded),
                (after, content, inner),
            ) && shown == self.after_content(ctx, ui, after@, content)
    }

    /// Whether `add_contents` may be called on the content region of this
    /// panel shown in `ui`, with the progress `how_expanded`.
    #[verifier::opaque]
    pub open spec fn callable_inside_at<R, F: FnOnce(PassContext, Ui, i32) -> (PassContext, Ui, R)>(
        self,
        ctx: PassView,
        ui: Ui,
        add_contents: F,
        how_expanded: i32,
    ) -> bool {
        forall|before: PassContext|
            before@ == self.before_content(ctx, ui) ==> add_contents.requires(
                (before, self.content_ui(ctx, ui), how_expanded),
            )
    }

    /// Shows the panel inside `ui`, with content that is told how far the
    /// panel is expanded.
    pub fn show_inside_at<R, F: FnOnce(PassContext, Ui, i32) -> (PassContext, Ui, R)>(
        self,
        ctx: &mut PassContext,
        ui: &mut Ui,
        how_expanded: i32,
        add_contents: F,
    ) -> (out: InnerResponse<R>)
        requires
            self.callable_inside_at(old(ctx)@, *old(ui), add_contents, how_expanded),
        ensures
            self.shown_inside_at(
                old(ctx)@,
                *old(ui),
                add_contents,
                how_expanded,
                Shown { ctx: final(ctx)@, ui: *final(ui), response: out.response },
                out.inner,
            ),
    {
        proof {
            reveal(EdgePanel::after_content);
            reveal(EdgePanel::callable_inside_at);
            reveal(EdgePanel::shown_inside_at);
        }
        let begun = self.begin_inside(ctx, ui);
        let before = ctx.take();
        let ghost before_g = before;
        let (after, content, inner) = add_contents(before, begun.content_ui, how_expanded);
        let ghost after_g = after;
        *ctx = after;
        let response = self.end_inside(ctx, ui, begun, content);
        proof {
            assert(add_contents.ensures(
                (before_g, self.content_ui(old(ctx)@, *old(ui)), how_expanded),
                (after_g, content, inner),
            ));
        }
        InnerResponse { inner, response }
    }

    /// Whether `after` and `out` are what showing the panel at the top
    /// level leaves behind and returns, with content that is told how far
    /// the panel is expanded.
    #[verifier::opaque]
    pub open spec fn shown_at<R, F: FnOnce(PassContext, Ui, i32) -> (PassContext, Ui, R)>(
        self,
        ctx: PassView,
        add_contents: F,
        how_expanded: i32,
        after: PassView,
        out: InnerResponse<R>,
    ) -> bool {
        exists|inside: Shown| #[trigger]
            self.shown_inside_at(ctx, self.top_ui(ctx), add_contents, how_expanded, inside, out.inner)
                && inside.response == out.response && after == inside.ctx.with_pass(
                self.edge.allocate(inside.ctx.pass, ctx.pass.available_rect, out.response.rect),
            )
    }

    /// Takes what a top-level panel used from the budget.
    fn allocate(&self, ctx: &mut PassContext, available_rect: Rect, rect: Rect)
        ensures
            final(ctx)@ == old(ctx)@.with_pass(self.edge.allocate(old(ctx)@.pass, available_rect, rect)),
    {
        match self.edge {
            Edge::Left => {
                ctx.pass.allocate_left_panel(Rect::from_min_max(available_rect.min, rect.max));
            },
            Edge::Right => {
                ctx.pass.allocate_right_panel(Rect::from_min_max(rect.min, available_rect.max));
            },
            Edge::Top => {
                ctx.pass.allocate_top_panel(Rect::from_min_max(available_rect.min, rect.max));
            },
            Edge::Bottom => {
                ctx.pass.allocate_bottom_panel(Rect::from_min_max(rect.min, available_rect.max));
            },
        }
    }

    /// Makes the region of a top-level panel.
    fn make_top_ui(&self, ctx: &PassContext) -> (ui: Ui)
        ensures
            ui == self.top_ui(ctx@),
    {
        proof {
            reveal(EdgePanel::top_ui);
        }
        let mut panel_ui = Ui::new(
            ctx,
            self.id,
            UiBuilder::new().layer_id(LayerId::background()).max_rect(ctx.available_rect()),
        );
        panel_ui.set_clip_rect(ctx.screen_rect());
        panel_ui
    }

    /// Shows the panel at the top level, with content that is told how far
    /// the panel is expanded.
    pub fn show_at<R, F: FnOnce(PassContext, Ui, i32) -> (PassContext, Ui, R)>(
        self,
        ctx: &mut PassContext,
        how_expanded: i32,
        add_contents: F,
    ) -> (out: InnerResponse<R>)
        requires
            self.callable_inside_at(old(ctx)@, self.top_ui(old(ctx)@), add_contents, how_expanded),
        ensures
            self.shown_at(old(ctx)@, add_contents, how_expanded, final(ctx)@, out),
    {
        proof {
            reveal(EdgePanel::shown_at);
        }
        let available_rect = ctx.available_rect();
        let mut panel_ui = self.make_top_ui(ctx);
        let out = self.show_inside_at(ctx, &mut panel_ui, how_expanded, add_contents);
        let ghost inside = Shown { ctx: ctx@, ui: panel_ui, response: out.response };
        self.allocate(ctx, available_rect, out.response.rect);
        proof {
            assert(self.shown_inside_at(
                old(ctx)@,
                self.top_ui(old(ctx)@),
                add_contents,
                how_expanded,
                inside,
                out.inner,
            ));
        }
        out
    }

    /// What showing the panel in `ui` without any content leaves behind.
    #[verifier::opaque]
    pub open spec fn shown_empty_inside(self, ctx: PassView, ui: Ui) -> Shown {
        self.after_content(ctx, ui, self.before_content(ctx, ui), self.content_ui(ctx, ui))
    }

    /// Shows the panel inside `ui` without any content.
    pub fn show_empty_inside(self, ctx: &mut PassContext, ui: &mut Ui) -> (response: Response)
        ensures
            (Shown { ctx: final(ctx)@, ui: *final(ui), response }) == self.shown_empty_inside(
                old(ctx)@,
                *old(ui),
            ),
    {
        proof {
            reveal(EdgePanel::shown_empty_inside);
            reveal(EdgePanel::after_content);
        }
        let begun = self.begin_inside(ctx, ui);
        self.end_inside(ctx, ui, begun, begun.content_ui)
    }

    /// The state that showing the panel at the top level without any
    /// content leaves behind.
    #[verifier::opaque]
    pub open spec fn shown_empty(self, ctx: PassView) -> PassView {
        let inside = self.shown_empty_inside(ctx, self.top_ui(ctx));
        inside.ctx.with_pass(
            self.edge.allocate(inside.ctx.pass, ctx.pass.available_rect, inside.response.rect),
        )
    }

    /// Shows the panel at the top level without any content.
    pub fn show_empty(self, ctx: &mut PassContext)
        ensures
            final(ctx)@ == self.shown_empty(old(ctx)@),
    {
        proof {
            reveal(EdgePanel::shown_empty);
        }
        let available_rect = ctx.available_rect();
        let mut panel_ui = self.make_top_ui(ctx);
        let response = self.show_empty_inside(ctx, &mut panel_ui);
        self.allocate(ctx, available_rect, response.rect);
    }

    /// The identifier under which the progress of the panel's animation is
    /// kept.
    pub open spec fn animation_id(self) -> Id {
        self.id.spec_with(IdSalt::Animation)
    }

    /// The panel shown in place of this one while its animation runs: under
    /// an identifier of its own, so that it keeps no rectangle under the
    /// real one; not resizable; and of exactly the given extent.
    pub open spec fn spec_stand_in(self, extent: i32) -> EdgePanel {
        EdgePanel {
            id: self.id.spec_with(IdSalt::AnimatingPanel),
            resizable: false,
            default_extent: Some(extent),
            extent_range: Rangei::spec_point(extent),
            ..self
        }
    }

    /// The panel shown in place of this one while its animation runs.
    #[verifier::when_used_as_spec(spec_stand_in)]
    pub fn stand_in(self, extent: i32) -> (p: EdgePanel)
        ensures
            p == self.spec_stand_in(extent),
    {
        EdgePanel {
            id: self.id.with(IdSalt::AnimatingPanel),
            resizable: false,
            default_extent: Some(extent),
            extent_range: Rangei::point(extent),
            ..self
        }
    }

    /// The extent that the panel rests at: that of the rectangle kept for
    /// it, else its default, else the height of a widget that can be clicked.
    pub open spec fn spec_resting_extent(self, ctx: PassView, style: Style) -> i32 {
        match lookup(ctx.panels, self.id) {
            Some(state) => self.edge.spec_extent_of(state.rect),
            None => match self.default_extent {
                Some(d) => d,
                None => style.spacing.interact_size.y,
            },
        }
    }

    /// The extent that the panel rests at.
    pub fn resting_extent(&self, ctx: &PassContext, style: Style) -> (r: i32)
        ensures
            r == self.spec_resting_extent(ctx@, style),
    {
        match PanelState::load(ctx, self.id) {
            Some(state) => self.edge.extent_of(state.rect),
            None => match self.default_extent {
                Some(d) => d,
                None => style.spacing.interact_size.y,
            },
        }
    }

    /// The state after the panel's animation took its step.
    pub open spec fn animated(self, ctx: PassView, is_expanded: bool) -> PassView {
        ctx.animate(self.animation_id(), is_expanded)
    }

    /// How far the panel is expanded in this pass.
    pub open spec fn how_expanded(self, ctx: PassView, is_expanded: bool) -> i32 {
        ctx.animation_value(self.animation_id(), is_expanded)
    }

    /// Shows the panel at the top level if it is expanded, and nothing if it
    /// is collapsed, with an animation in between: while that runs, a
    /// stand-in without content is shown whose extent grows with the
    /// progress. Only the real panel runs `add_contents`.
    pub fn show_animated<R, F: FnOnce(PassContext, Ui) -> (PassContext, Ui, R)>(
        self,
        ctx: &mut PassContext,
        is_expanded: bool,
        add_contents: F,
    ) -> (out: Option<InnerResponse<R>>)
        requires
            self.how_expanded(old(ctx)@, is_expanded) >= ONE ==> self.callable_inside(
                self.animated(old(ctx)@, is_expanded),
                self.top_ui(self.animated(old(ctx)@, is_expanded)),
                add_contents,
            ),
        ensures
            ({
                let how = self.how_expanded(old(ctx)@, is_expanded);
                let started = self.animated(old(ctx)@, is_expanded);
                if how == 0 {
                    out.is_none() && final(ctx)@ == started
                } else if how < ONE {
                    out.is_none() && final(ctx)@ == self.spec_stand_in(
                        scale_int(self.spec_resting_extent(started, started.style) as int, how as int) as i32,
                    ).shown_empty(started)
                } else {
                    out.is_some() && self.shown(started, add_contents, final(ctx)@, out.unwrap())
                }
            }),
            self.how_expanded(old(ctx)@, is_expanded) < ONE ==> lookup(final(ctx)@.panels, self.id)
                == lookup(old(ctx)@.panels, self.id),
    {
        let how_expanded: i32 = ctx.animate_bool_responsive(self.id.with(IdSalt::Animation), is_expanded);
        if 0 == how_expanded {
            None
        } else if how_expanded < ONE {
            let expanded_extent: i32 = self.resting_extent(ctx, ctx.style());
            let fake_extent: i32 = scale(expanded_extent, how_expanded);
            proof {
                crate::laws::lemma_stand_in_keeps_real_state(self, ctx@, self.top_ui(ctx@), fake_extent);
            }
            self.stand_in(fake_extent).show_empty(ctx);
            None
        } else {
            Some(self.show_dyn(ctx, add_contents))
        }
    }

    /// Shows the panel inside `ui` if it is expanded, and nothing if it is
    /// collapsed, with an animation in between.
    pub fn show_animated_inside<R, F: FnOnce(PassContext, Ui) -> (PassContext, Ui, R)>(
        self,
        ctx: &mut PassContext,
        ui: &mut Ui,
        is_expanded: bool,
        add_contents: F,
    ) -> (out: Option<InnerResponse<R>>)
        requires
            self.how_expanded(old(ctx)@, is_expanded) >= ONE ==> self.callable_inside(
                self.animated(old(ctx)@, is_expanded),
                *old(ui),
                add_contents,
            ),
        ensures
            ({
                let how = self.how_expanded(old(ctx)@, is_expanded);
                let started = self.animated(old(ctx)@, is_expanded);
                if how == 0 {
                    out.is_none() && final(ctx)@ == started && *final(ui) == *old(ui)
                } else if how < ONE {
                    out.is_none() && self.spec_stand_in(
                        scale_int(self.spec_resting_extent(started, old(ui).style) as int, how as int) as i32,
                    ).shown_empty_inside(started, *old(ui)).ctx == final(ctx)@ && self.spec_stand_in(
                        scale_int(self.spec_resting_extent(started, old(ui).style) as int, how as int) as i32,
                    ).shown_empty_inside(started, *old(ui)).ui == *final(ui)
                } else {
                    out.is_some() && self.shown_inside(
                        started,
                        *old(ui),
                        add_contents,
                        Shown { ctx: final(ctx)@, ui: *final(ui), response: out.unwrap().response },
                        out.unwrap().inner,
                    )
                }
            }),
            self.how_expanded(old(ctx)@, is_expanded) < ONE ==> lookup(final(ctx)@.panels, self.id)
                == lookup(old(ctx)@.panels, self.id),
    {
        let how_expanded: i32 = ctx.animate_bool_responsive(self.id.with(IdSalt::Animation), is_expanded);
        if 0 == how_expanded {
            None
        } else if how_expanded < ONE {
            let expanded_extent: i32 = self.resting_extent(ctx, ui.style());
            let fake_extent: i32 = scale(expanded_extent, how_expanded);
            proof {
                crate::laws::lemma_stand_in_keeps_real_state(self, ctx@, *ui, fake_extent);
            }
            let _ = self.stand_in(fake_extent).show_empty_inside(ctx, ui);
            None
        } else {
            Some(self.show_inside_dyn(ctx, ui, add_contents))
        }
    }

    /// The panel that `show_animated_between` shows at the progress `how`:
    /// the collapsed one at `0`, the expanded one at `ONE`, and in between
    /// a stand-in for the expanded one whose extent lies between the two
    /// resting extents in proportion to the progress.
    #[verifier::opaque]
    pub open spec fn between(
        collapsed: EdgePanel,
        expanded: EdgePanel,
        ctx: PassView,
        style: Style,
        how: i32,
    ) -> EdgePanel {
        if how == 0 {
            collapsed
        } else if how < ONE {
            expanded.spec_stand_in(
                lerp_int(
                    collapsed.spec_resting_extent(ctx, style) as int,
                    expanded.spec_resting_extent(ctx, style) as int,
                    how as int,
                ) as i32,
            )
        } else {
            expanded
        }
    }

    /// The panel that `show_animated_between` shows.
    fn pick_between(collapsed: EdgePanel, expanded: EdgePanel, ctx: &PassContext, style: Style, how: i32) -> (p:
        EdgePanel)
        ensures
            p == EdgePanel::between(collapsed, expanded, ctx@, style, how),
    {
        proof {
            reveal(EdgePanel::between);
        }
        if 0 == how {
            collapsed
        } else if how < ONE {
            let collapsed_extent: i32 = collapsed.resting_extent(ctx, style);
            let expanded_extent: i32 = expanded.resting_extent(ctx, style);
            expanded.stand_in(lerp(collapsed_extent, expanded_extent, how))
        } else {
            expanded
        }
    }

    /// Shows the collapsed or the expanded panel at the top level, with an
    /// animation in between, during which a stand-in is shown. The content
    /// runs in every case and is told the progress; what it returns is
    /// handed on only from the two real panels.
    pub fn show_animated_between<R, F: FnOnce(PassContext, Ui, i32) -> (PassContext, Ui, R)>(
        ctx: &mut PassContext,
        is_expanded: bool,
        collapsed_panel: EdgePanel,
        expanded_panel: EdgePanel,
        add_contents: F,
    ) -> (out: Option<InnerResponse<R>>)
        requires
            ({
                let how = expanded_panel.how_expanded(old(ctx)@, is_expanded);
                let started = expanded_panel.animated(old(ctx)@, is_expanded);
                let panel = EdgePanel::between(collapsed_panel, expanded_panel, started, started.style, how);
                panel.callable_inside_at(started, panel.top_ui(started), add_contents, how)
            }),
        ensures
            ({
                let how = expanded_panel.how_expanded(old(ctx)@, is_expanded);
                let started = expanded_panel.animated(old(ctx)@, is_expanded);
                let panel = EdgePanel::between(collapsed_panel, expanded_panel, started, started.style, how);
                if 0 < how < ONE {
                    out.is_none() && exists|shown: InnerResponse<R>| #[trigger]
                        panel.shown_at(started, add_contents, how, final(ctx)@, shown)
                } else {
                    out.is_some() && panel.shown_at(started, add_contents, how, final(ctx)@, out.unwrap())
                }
            }),
    {
        let how_expanded: i32 = ctx.animate_bool_responsive(
            expanded_panel.id.with(IdSalt::Animation),
            is_expanded,
        );
        let panel = EdgePanel::pick_between(collapsed_panel, expanded_panel, ctx, ctx.style(), how_expanded);
        let shown = panel.show_at(ctx, how_expanded, add_contents);
        if 0 < how_expanded && how_expanded < ONE {
            None
        } else {
            Some(shown)
        }
    }

    /// Shows the collapsed or the expanded panel inside `ui`, with an
    /// animation in between, during which a stand-in is shown. The content
    /// runs in every case and is told the progress.
    pub fn show_animated_between_inside<R, F: FnOnce(PassContext, Ui, i32) -> (PassContext, Ui, R)>(
        ctx: &mut PassContext,
        ui: &mut Ui,
        is_expanded: bool,
        collapsed_panel: EdgePanel,
        expanded_panel: EdgePanel,
        add_contents: F,
    ) -> (out: InnerResponse<R>)
        requires
            ({
                let how = expanded_panel.how_expanded(old(ctx)@, is_expanded);
                let started = expanded_panel.animated(old(ctx)@, is_expanded);
                let panel = EdgePanel::between(collapsed_panel, expanded_panel, started, old(ui).style, how);
                panel.callable_inside_at(started, *old(ui), add_contents, how)
            }),
        ensures
            ({
                let how = expanded_panel.how_expanded(old(ctx)@, is_expanded);
                let started = expanded_panel.animated(old(ctx)@, is_expanded);
                let panel = EdgePanel::between(collapsed_panel, expanded_panel, started, old(ui).style, how);
                panel.shown_inside_at(
                    started,
                    *old(ui),
                    add_contents,
                    how,
                    Shown { ctx: final(ctx)@, ui: *final(ui), response: out.response },
                    out.inner,
                )
            }),
    {
        let how_expanded: i32 = ctx.animate_bool_responsive(
            expanded_panel.id.with(IdSalt::Animation),
            is_expanded,
        );
        let panel = EdgePanel::pick_between(collapsed_panel, expanded_panel, ctx, ui.style(), how_expanded);
        panel.show_inside_at(ctx, ui, how_expanded, add_contents)
    }
}

} // verus!
