//! The state of one pass: the budget that panels carve, what is kept between
//! passes, what the host reported of the pointer, and what the pass produces.

use vstd::prelude::*;
use crate::geom::{Pos2, Rect};
use crate::id::{lookup, Id, IdMap};
use crate::layers::{ClippedShape, GraphicLayers, LayerId};
use crate::num::{clamp, clamp_int, sat_add, sat_sub, ONE};
use crate::panel::PanelState;
use crate::style::Style;

verus! {

/// The pointer shapes that this crate asks for.
#[derive(Clone, Copy, Debug, PartialEq, Eq, Structural)]
pub enum CursorIcon {
    Default,
    ResizeHorizontal,
    ResizeVertical,
    ResizeEast,
    ResizeWest,
    ResizeNorth,
    ResizeSouth,
}

/// The kinds of pointer interaction that a region of the screen senses.
#[derive(Clone, Copy, Debug, PartialEq, Eq, Structural)]
pub struct Sense {
    pub click: bool,
    pub drag: bool,
}

impl Sense {
    /// Senses nothing but the pointer passing over.
    pub open spec fn spec_hover() -> Sense {
        Sense { click: false, drag: false }
    }

    /// Senses nothing but the pointer passing over.
    #[verifier::when_used_as_spec(spec_hover)]
    pub fn hover() -> (s: Sense)
        ensures
            s == Sense::spec_hover(),
    {
        Sense { click: false, drag: false }
    }

    /// Senses drags.
    pub open spec fn spec_drag() -> Sense {
        Sense { click: false, drag: true }
    }

    /// Senses drags.
    #[verifier::when_used_as_spec(spec_drag)]
    pub fn drag() -> (s: Sense)
        ensures
            s == Sense::spec_drag(),
    {
        Sense { click: false, drag: true }
    }

    /// Senses clicks.
    pub open spec fn spec_click() -> Sense {
        Sense { click: true, drag: false }
    }

    /// Senses clicks.
    #[verifier::when_used_as_spec(spec_click)]
    pub fn click() -> (s: Sense)
        ensures
            s == Sense::spec_click(),
    {
        Sense { click: true, drag: false }
    }

    /// Whether clicks or drags are sensed.
    pub open spec fn spec_interactive(self) -> bool {
        self.click || self.drag
    }

    /// Whether clicks or drags are sensed.
    #[verifier::when_used_as_spec(spec_interactive)]
    pub fn interactive(self) -> (r: bool)
        ensures
            r == self.spec_interactive(),
    {
        self.click || self.drag
    }
}

/// What the host found out about the pointer and one widget, from the input
/// of this pass and the widget's place in the pass before.
#[derive(Clone, Copy, Debug, PartialEq, Eq, Structural)]
pub struct PointerState {
    /// The rectangle that the widget had registered.
    pub rect: Rect,
    pub hovered: bool,
    pub dragged: bool,
    /// Where the pointer is, if it is interacting with the widget.
    pub pos: Option<Pos2>,
}

/// The result of asking about a widget.
#[derive(Clone, Copy, Debug, PartialEq, Eq, Structural)]
pub struct Response {
    pub id: Id,
    pub rect: Rect,
    pub hovered: bool,
    pub dragged: bool,
    pub interact_pointer_pos: Option<Pos2>,
}

impl Response {
    /// Whether the pointer is over the widget.
    pub fn hovered(&self) -> (r: bool)
        ensures
            r == self.hovered,
    {
        self.hovered
    }

    /// Whether the widget is being dragged.
    pub fn dragged(&self) -> (r: bool)
        ensures
            r == self.dragged,
    {
        self.dragged
    }

    /// Where the pointer is, if it is interacting with the widget.
    pub fn interact_pointer_pos(&self) -> (r: Option<Pos2>)
        ensures
            r == self.interact_pointer_pos,
    {
        self.interact_pointer_pos
    }
}

/// What a callback returned, with the response of the region it ran in.
#[derive(Debug)]
pub struct InnerResponse<R> {
    pub inner: R,
    pub response: Response,
}

/// A region that a widget registered for interaction in this pass.
#[derive(Clone, Copy, Debug, PartialEq, Eq, Structural)]
pub struct WidgetRect {
    pub id: Id,
    pub rect: Rect,
    pub sense: Sense,
}

/// Two uses of one identifier in one pass, with different rectangles.
#[derive(Clone, Copy, Debug, PartialEq, Eq, Structural)]
pub struct IdClash {
    pub id: Id,
    pub first: Rect,
    pub second: Rect,
}

/// The budget of screen space of a pass.
#[derive(Clone, Copy, Debug, PartialEq, Eq, Structural)]
pub struct PassState {
    /// What later panels may still claim.
    pub available_rect: Rect,
    /// What no panel has covered, the central panel included.
    pub unused_rect: Rect,
    /// The bounding rectangle of all panels so far.
    pub used_by_panels: Rect,
}

impl PassState {
    /// The budget at the start of a pass: all of the screen.
    pub open spec fn spec_new(screen_rect: Rect) -> PassState {
        PassState {
            available_rect: screen_rect,
            unused_rect: screen_rect,
            used_by_panels: Rect::spec_nothing(),
        }
    }

    /// The budget at the start of a pass: all of the screen.
    #[verifier::when_used_as_spec(spec_new)]
    pub fn new(screen_rect: Rect) -> (s: PassState)
        ensures
            s == PassState::spec_new(screen_rect),
    {
        PassState { available_rect: screen_rect, unused_rect: screen_rect, used_by_panels: Rect::nothing() }
    }

    /// The budget after a panel took `panel_rect` from the left.
    pub open spec fn spec_allocate_left_panel(self, panel_rect: Rect) -> PassState {
        PassState {
            available_rect: Rect {
                min: Pos2 { x: panel_rect.max.x, y: self.available_rect.min.y },
                max: self.available_rect.max,
            },
            unused_rect: Rect {
                min: Pos2 { x: panel_rect.max.x, y: self.unused_rect.min.y },
                max: self.unused_rect.max,
            },
            used_by_panels: self.used_by_panels.spec_union(panel_rect),
        }
    }

    /// The budget after a panel took `panel_rect` from the right.
    pub open spec fn spec_allocate_right_panel(self, panel_rect: Rect) -> PassState {
        PassState {
            available_rect: Rect {
                min: self.available_rect.min,
                max: Pos2 { x: panel_rect.min.x, y: self.available_rect.max.y },
            },
            unused_rect: Rect {
                min: self.unused_rect.min,
                max: Pos2 { x: panel_rect.min.x, y: self.unused_rect.max.y },
            },
            used_by_panels: self.used_by_panels.spec_union(panel_rect),
        }
    }

    /// The budget after a panel took `panel_rect` from the top.
    pub open spec fn spec_allocate_top_panel(self, panel_rect: Rect) -> PassState {
        PassState {
            available_rect: Rect {
                min: Pos2 { x: self.available_rect.min.x, y: panel_rect.max.y },
                max: self.available_rect.max,
            },
            unused_rect: Rect {
                min: Pos2 { x: self.unused_rect.min.x, y: panel_rect.max.y },
                max: self.unused_rect.max,
            },
            used_by_panels: self.used_by_panels.spec_union(panel_rect),
        }
    }

    /// The budget after a panel took `panel_rect` from the bottom.
    pub open spec fn spec_allocate_bottom_panel(self, panel_rect: Rect) -> PassState {
        PassState {
            available_rect: Rect {
                min: self.available_rect.min,
                max: Pos2 { x: self.available_rect.max.x, y: panel_rect.min.y },
            },
            unused_rect: Rect {
                min: self.unused_rect.min,
                max: Pos2 { x: self.unused_rect.max.x, y: panel_rect.min.y },
            },
            used_by_panels: self.used_by_panels.spec_union(panel_rect),
        }
    }

    /// The budget after the central panel used `panel_rect`. What is
    /// available does not shrink, since windows may cover the central
    /// panel; nothing is left unused.
    pub open spec fn spec_allocate_central_panel(self, panel_rect: Rect) -> PassState {
        PassState {
            available_rect: self.available_rect,
            unused_rect: Rect::spec_nothing(),
            used_by_panels: self.used_by_panels.spec_union(panel_rect),
        }
    }

    /// Takes `panel_rect` from the left of what is available.
    pub fn allocate_left_panel(&mut self, panel_rect: Rect)
        ensures
            *final(self) == old(self).spec_allocate_left_panel(panel_rect),
    {
        self.available_rect.min.x = panel_rect.max.x;
        self.unused_rect.min.x = panel_rect.max.x;
        self.used_by_panels = self.used_by_panels.union(panel_rect);
    }

    /// Takes `panel_rect` from the right of what is available.
    pub fn allocate_right_panel(&mut self, panel_rect: Rect)
        ensures
            *final(self) == old(self).spec_allocate_right_panel(panel_rect),
    {
        self.available_rect.max.x = panel_rect.min.x;
        self.unused_rect.max.x = panel_rect.min.x;
        self.used_by_panels = self.used_by_panels.union(panel_rect);
    }

    /// Takes `panel_rect` from the top of what is available.
    pub fn allocate_top_panel(&mut self, panel_rect: Rect)
        ensures
            *final(self) == old(self).spec_allocate_top_panel(panel_rect),
    {
        self.available_rect.min.y = panel_rect.max.y;
        self.unused_rect.min.y = panel_rect.max.y;
        self.used_by_panels = self.used_by_panels.union(panel_rect);
    }

    /// Takes `panel_rect` from the bottom of what is available.
    pub fn allocate_bottom_panel(&mut self, panel_rect: Rect)
        ensures
            *final(self) == old(self).spec_allocate_bottom_panel(panel_rect),
    {
        self.available_rect.max.y = panel_rect.min.y;
        self.unused_rect.max.y = panel_rect.min.y;
        self.used_by_panels = self.used_by_panels.union(panel_rect);
    }

    /// Records that the central panel used `panel_rect`.
    pub fn allocate_central_panel(&mut self, panel_rect: Rect)
        ensures
            *final(self) == old(self).spec_allocate_central_panel(panel_rect),
    {
        self.unused_rect = Rect::nothing();
        self.used_by_panels = self.used_by_panels.union(panel_rect);
    }
}

/// The progress that an animation reaches in this pass: one `step` from
/// where it stood towards its target, within `[0, ONE]`. An animation that is
/// new starts at its target.
pub open spec fn animate_spec(before: Option<i32>, target: bool, step: i32) -> i32 {
    let goal = if target {
        ONE
    } else {
        0i32
    };
    let from = match before {
        Some(p) => clamp_int(p as int, 0, ONE as int),
        None => goal as int,
    };
    let by = if step < 0 {
        0int
    } else {
        step as int
    };
    if target {
        clamp_int(from + by, 0, ONE as int) as i32
    } else {
        clamp_int(from - by, 0, ONE as int) as i32
    }
}

/// The state of a pass and of what outlives it.
#[derive(Debug)]
pub struct PassContext {
    /// Which viewport this is.
    pub viewport_id: u64,
    /// The size of a device pixel in layout units.
    pub pixel_size: i32,
    /// The whole area that can be painted to.
    pub screen_rect: Rect,
    /// The style that new regions start with.
    pub style: Style,
    /// Whether the host will throw this pass away and run another.
    pub will_discard: bool,
    /// How far an animation moves in this pass, as a fixed-point share of
    /// its whole way.
    pub animation_step: i32,
    /// The budget of screen space.
    pub pass: PassState,
    /// The rectangle that each identifier was first used with in this pass.
    pub used_ids: IdMap<Rect>,
    /// The identifier clashes found in this pass.
    pub id_clashes: Vec<IdClash>,
    /// The panel rectangles kept from pass to pass.
    pub panels: IdMap<PanelState>,
    /// The progress of animations, kept from pass to pass.
    pub animations: IdMap<i32>,
    /// What the host reported of the pointer, by widget.
    pub pointer: IdMap<PointerState>,
    /// The regions registered for interaction in this pass.
    pub widget_rects: Vec<WidgetRect>,
    /// The pointer shape asked for in this pass.
    pub cursor_icon: CursorIcon,
    /// The shapes painted in this pass, by layer.
    pub graphics: GraphicLayers,
}

/// The mathematical content of a [`PassContext`].
pub struct PassView {
    pub viewport_id: u64,
    pub pixel_size: i32,
    pub screen_rect: Rect,
    pub style: Style,
    pub will_discard: bool,
    pub animation_step: i32,
    pub pass: PassState,
    pub used_ids: Map<Id, Rect>,
    pub id_clashes: Seq<IdClash>,
    pub panels: Map<Id, PanelState>,
    pub animations: Map<Id, i32>,
    pub pointer: Map<Id, PointerState>,
    pub widget_rects: Seq<WidgetRect>,
    pub cursor_icon: CursorIcon,
    pub graphics: Map<LayerId, Seq<ClippedShape>>,
}

impl View for PassContext {
    type V = PassView;

    open spec fn view(&self) -> PassView {
        PassView {
            viewport_id: self.viewport_id,
            pixel_size: self.pixel_size,
            screen_rect: self.screen_rect,
            style: self.style,
            will_discard: self.will_discard,
            animation_step: self.animation_step,
            pass: self.pass,
            used_ids: self.used_ids@,
            id_clashes: self.id_clashes@,
            panels: self.panels@,
            animations: self.animations@,
            pointer: self.pointer@,
            widget_rects: self.widget_rects@,
            cursor_icon: self.cursor_icon,
            graphics: self.graphics@,
        }
    }
}

impl PassView {
    /// The state in which a context is created, and in which it is left
    /// while its content is on loan to a callback.
    pub open spec fn vacant() -> PassView {
        PassView {
            viewport_id: 0,
            pixel_size: 1,
            screen_rect: Rect::spec_nothing(),
            style: Style::spec_dark(),
            will_discard: false,
            animation_step: ONE,
            pass: PassState::spec_new(Rect::spec_nothing()),
            used_ids: Map::empty(),
            id_clashes: Seq::empty(),
            panels: Map::empty(),
            animations: Map::empty(),
            pointer: Map::empty(),
            widget_rects: Seq::empty(),
            cursor_icon: CursorIcon::Default,
            graphics: Map::empty(),
        }
    }

    /// The state at the start of a pass: the budget is the whole screen, and
    /// what the pass before produced is gone. Panel rectangles and animations
    /// are kept.
    pub open spec fn begin_pass(self, screen_rect: Rect, pointer: Map<Id, PointerState>) -> PassView {
        PassView {
            screen_rect,
            pass: PassState::spec_new(screen_rect),
            used_ids: Map::empty(),
            id_clashes: Seq::empty(),
            pointer,
            widget_rects: Seq::empty(),
            cursor_icon: CursorIcon::Default,
            graphics: Map::empty(),
            ..self
        }
    }

    /// The state with another budget.
    pub open spec fn with_pass(self, pass: PassState) -> PassView {
        PassView { pass, ..self }
    }

    /// The state after `id` was used with `rect`: a clash is recorded where
    /// the identifier was used before in this pass with another rectangle.
    pub open spec fn check_for_id_clash(self, id: Id, rect: Rect) -> PassView {
        PassView {
            used_ids: self.used_ids.insert(id, rect),
            id_clashes: match lookup(self.used_ids, id) {
                Some(first) => if first != rect {
                    self.id_clashes.push(IdClash { id, first, second: rect })
                } else {
                    self.id_clashes
                },
                None => self.id_clashes,
            },
            ..self
        }
    }

    /// The state with the rectangle of panel `id` replaced.
    pub open spec fn store_panel(self, id: Id, state: PanelState) -> PassView {
        PassView { panels: self.panels.insert(id, state), ..self }
    }

    /// What is known of the pointer and widget `id`.
    pub open spec fn read_response(self, id: Id) -> Option<Response> {
        match lookup(self.pointer, id) {
            Some(p) => Some(
                Response {
                    id,
                    rect: p.rect,
                    hovered: p.hovered,
                    dragged: p.dragged,
                    interact_pointer_pos: p.pos,
                },
            ),
            None => None,
        }
    }

    /// The response to a widget that registers `rect` under `id`: hovered
    /// and dragged as the host reported, dragged only where drags are sensed.
    pub open spec fn response_to(self, rect: Rect, id: Id, sense: Sense) -> Response {
        match lookup(self.pointer, id) {
            Some(p) => Response {
                id,
                rect,
                hovered: p.hovered,
                dragged: p.dragged && sense.drag,
                interact_pointer_pos: p.pos,
            },
            None => Response { id, rect, hovered: false, dragged: false, interact_pointer_pos: None },
        }
    }

    /// The state after a widget registered `rect` under `id`.
    pub open spec fn interact(self, rect: Rect, id: Id, sense: Sense) -> PassView {
        PassView { widget_rects: self.widget_rects.push(WidgetRect { id, rect, sense }), ..self }
    }

    /// The state with another pointer shape asked for.
    pub open spec fn set_cursor_icon(self, icon: CursorIcon) -> PassView {
        PassView { cursor_icon: icon, ..self }
    }

    /// The progress that animation `id` reaches in this pass.
    pub open spec fn animation_value(self, id: Id, target: bool) -> i32 {
        animate_spec(lookup(self.animations, id), target, self.animation_step)
    }

    /// The state after animation `id` moved towards `target`.
    pub open spec fn animate(self, id: Id, target: bool) -> PassView {
        PassView { animations: self.animations.insert(id, self.animation_value(id, target)), ..self }
    }

    /// The state with other shapes.
    pub open spec fn with_graphics(self, graphics: Map<LayerId, Seq<ClippedShape>>) -> PassView {
        PassView { graphics, ..self }
    }
}

/// What a pass hands to the host when it ends.
#[derive(Debug)]
pub struct PassOutput {
    /// The shapes to rasterize, by layer.
    pub graphics: GraphicLayers,
    /// The regions that sense the pointer in the next pass.
    pub widget_rects: Vec<WidgetRect>,
    /// The pointer shape to show.
    pub cursor_icon: CursorIcon,
    /// The identifier clashes to report.
    pub id_clashes: Vec<IdClash>,
}

impl PassContext {
    /// A context without a screen. `begin_pass` gives it one.
    pub fn new() -> (ctx: PassContext)
        ensures
            ctx@ == PassView::vacant(),
    {
        PassContext {
            viewport_id: 0,
            pixel_size: 1,
            screen_rect: Rect::nothing(),
            style: Style::dark(),
            will_discard: false,
            animation_step: ONE,
            pass: PassState::new(Rect::nothing()),
            used_ids: IdMap::new(),
            id_clashes: Vec::new(),
            panels: IdMap::new(),
            animations: IdMap::new(),
            pointer: IdMap::new(),
            widget_rects: Vec::new(),
            cursor_icon: CursorIcon::Default,
            graphics: GraphicLayers::new(),
        }
    }

    /// Moves the whole state out and leaves a vacant context behind, so that
    /// the state can be lent to a callback.
    pub fn take(&mut self) -> (ctx: PassContext)
        ensures
            ctx == *old(self),
            final(self)@ == PassView::vacant(),
    {
        let mut ctx = PassContext::new();
        core::mem::swap(self, &mut ctx);
        ctx
    }

    /// Starts a pass on a screen of `screen_rect`, with what the host found
    /// out about the pointer.
    pub fn begin_pass(&mut self, screen_rect: Rect, pointer: IdMap<PointerState>)
        ensures
            final(self)@ == old(self)@.begin_pass(screen_rect, pointer@),
    {
        self.screen_rect = screen_rect;
        self.pass = PassState::new(screen_rect);
        self.used_ids = IdMap::new();
        self.id_clashes = Vec::new();
        self.pointer = pointer;
        self.widget_rects = Vec::new();
        self.cursor_icon = CursorIcon::Default;
        self.graphics = GraphicLayers::new();
    }

    /// Ends the pass and hands out what it produced. What a pass produces is
    /// gone from the context afterwards; the rest stays.
    pub fn end_pass(&mut self) -> (out: PassOutput)
        ensures
            out.graphics@ == old(self)@.graphics,
            out.widget_rects@ == old(self)@.widget_rects,
            out.cursor_icon == old(self)@.cursor_icon,
            out.id_clashes@ == old(self)@.id_clashes,
            final(self)@ == (PassView {
                graphics: Map::empty(),
                widget_rects: Seq::empty(),
                id_clashes: Seq::empty(),
                ..old(self)@
            }),
    {
        let mut graphics = GraphicLayers::new();
        let mut widget_rects: Vec<WidgetRect> = Vec::new();
        let mut id_clashes: Vec<IdClash> = Vec::new();
        core::mem::swap(&mut self.graphics, &mut graphics);
        core::mem::swap(&mut self.widget_rects, &mut widget_rects);
        core::mem::swap(&mut self.id_clashes, &mut id_clashes);
        PassOutput { graphics, widget_rects, cursor_icon: self.cursor_icon, id_clashes }
    }

    /// What later panels may still claim.
    pub fn available_rect(&self) -> (r: Rect)
        ensures
            r == self@.pass.available_rect,
    {
        self.pass.available_rect
    }

    /// The whole area that can be painted to.
    pub fn screen_rect(&self) -> (r: Rect)
        ensures
            r == self@.screen_rect,
    {
        self.screen_rect
    }

    /// The style that new regions start with.
    pub fn style(&self) -> (s: Style)
        ensures
            s == self@.style,
    {
        self.style
    }

    /// The size of a device pixel in layout units.
    pub fn pixel_size(&self) -> (r: i32)
        ensures
            r == self@.pixel_size,
    {
        self.pixel_size
    }

    /// Whether the host will throw this pass away and run another.
    pub fn will_discard(&self) -> (r: bool)
        ensures
            r == self@.will_discard,
    {
        self.will_discard
    }

    /// Which viewport this is.
    pub fn viewport_id(&self) -> (r: u64)
        ensures
            r == self@.viewport_id,
    {
        self.viewport_id
    }

    /// Records the use of `id` with `rect`, and a clash where `id` was used
    /// before in this pass with another rectangle. Layout goes on either way.
    pub fn check_for_id_clash(&mut self, id: Id, rect: Rect)
        ensures
            final(self)@ == old(self)@.check_for_id_clash(id, rect),
    {
        let before = self.used_ids.insert(id, rect);
        match before {
            Some(first) => {
                if first != rect {
                    self.id_clashes.push(IdClash { id, first, second: rect });
                }
            },
            None => {},
        }
    }

    /// The rectangle kept for panel `id`, if any.
    pub fn load_panel(&self, id: Id) -> (state: Option<PanelState>)
        ensures
            state == lookup(self@.panels, id),
    {
        self.panels.get(id)
    }

    /// Keeps `state` for panel `id`.
    pub fn store_panel(&mut self, id: Id, state: PanelState)
        ensures
            final(self)@ == old(self)@.store_panel(id, state),
    {
        let _ = self.panels.insert(id, state);
    }

    /// What the host reported of the pointer and widget `id`, if anything.
    /// It stems from the input of this pass and the widget's place in the
    /// pass before, so it is known before the widget is laid out again.
    pub fn read_response(&self, id: Id) -> (r: Option<Response>)
        ensures
            r == self@.read_response(id),
    {
        match self.pointer.get(id) {
            Some(p) => Some(
                Response {
                    id,
                    rect: p.rect,
                    hovered: p.hovered,
                    dragged: p.dragged,
                    interact_pointer_pos: p.pos,
                },
            ),
            None => None,
        }
    }

    /// Registers `rect` under `id` for interaction and says how the pointer
    /// relates to it.
    pub fn interact(&mut self, rect: Rect, id: Id, sense: Sense) -> (r: Response)
        ensures
            r == old(self)@.response_to(rect, id, sense),
            final(self)@ == old(self)@.interact(rect, id, sense),
    {
        self.widget_rects.push(WidgetRect { id, rect, sense });
        match self.pointer.get(id) {
            Some(p) => Response {
                id,
                rect,
                hovered: p.hovered,
                dragged: p.dragged && sense.drag,
                interact_pointer_pos: p.pos,
            },
            None => Response { id, rect, hovered: false, dragged: false, interact_pointer_pos: None },
        }
    }

    /// Asks for a pointer shape.
    pub fn set_cursor_icon(&mut self, icon: CursorIcon)
        ensures
            final(self)@ == old(self)@.set_cursor_icon(icon),
    {
        self.cursor_icon = icon;
    }

    /// Moves animation `id` one step towards `target` and returns its
    /// progress: `0` at false, `ONE` at true.
    pub fn animate_bool_responsive(&mut self, id: Id, target: bool) -> (progress: i32)
        ensures
            progress == old(self)@.animation_value(id, target),
            final(self)@ == old(self)@.animate(id, target),
            0 <= progress <= ONE,
    {
        let goal: i32 = if target {
            ONE
        } else {
            0
        };
        let from: i32 = match self.animations.get(id) {
            Some(p) => clamp(p, 0, ONE),
            None => goal,
        };
        let by: i32 = if self.animation_step < 0 {
            0
        } else {
            self.animation_step
        };
        let next: i32 = if target {
            clamp(sat_add(from, by), 0, ONE)
        } else {
            clamp(sat_sub(from, by), 0, ONE)
        };
        let _ = self.animations.insert(id, next);
        next
    }
}

} // verus!
