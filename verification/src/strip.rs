//! The strip layout: cells placed one after another along a direction, in
//! lines, as grids and tables need them.

use vstd::prelude::*;
use crate::context::{PassContext, PassView, Response, Sense};
use crate::geom::{Pos2, Rect, Vec2};
use crate::id::Id;
use crate::num::{at_least, sat, sat_add};
use crate::shape::{hline_spec, Shape};
use crate::style::{Style, TextWrapMode, Visuals};
use crate::ui::{Layout, Ui, UiBuilder, UiKind};

verus! {

/// The extent of a cell along one axis.
#[derive(Clone, Copy, Debug, PartialEq, Eq, Structural)]
pub enum CellSize {
    /// So many layout units.
    Absolute(i32),
    /// All that is left up to the bound of the strip.
    Remainder,
}

/// The direction in which the cells of a line follow each other. Lines
/// follow each other in the other direction.
#[derive(Clone, Copy, Debug, PartialEq, Eq, Structural)]
pub enum CellDirection {
    /// Cells go from left to right.
    Horizontal,
    /// Cells go from top to bottom.
    Vertical,
}

/// How a cell is shown.
#[derive(Clone, Copy, Debug, PartialEq, Eq, Structural)]
pub struct StripLayoutFlags {
    /// Content is cut off at the cell's bounds and does not push the layout.
    pub clip: bool,
    pub striped: bool,
    pub hovered: bool,
    pub selected: bool,
    /// A line is drawn along the top of the cell.
    pub overline: bool,
    /// The cell is only measured.
    pub sizing_pass: bool,
}

impl Default for StripLayoutFlags {
    fn default() -> (f: StripLayoutFlags)
        ensures
            f == (StripLayoutFlags {
                clip: false,
                striped: false,
                hovered: false,
                selected: false,
                overline: false,
                sizing_pass: false,
            }),
    {
        StripLayoutFlags {
            clip: false,
            striped: false,
            hovered: false,
            selected: false,
            overline: false,
            sizing_pass: false,
        }
    }
}

/// Places cells along `direction` and starts a new line on `end_line`.
///
/// `cursor` is where the next cell begins. `max` is the farthest that any
/// cell has reached on each axis: a new line begins beyond it, not beyond the
/// last cell, so that cells of uneven size do not run into the next line.
#[derive(Clone, Copy, Debug, PartialEq, Eq, Structural)]
pub struct StripLayout {
    pub direction: CellDirection,
    pub rect: Rect,
    pub cursor: Pos2,
    pub max: Pos2,
    pub cell_layout: Layout,
    pub sense: Sense,
}

/// What adding a cell leaves behind and returns.
pub struct CellAdded {
    pub strip: StripLayout,
    pub ctx: PassView,
    pub ui: Ui,
    /// What the content used.
    pub used_rect: Rect,
    /// The response of the whole cell.
    pub response: Response,
}

/// The rectangle that a cell claims in its parent: what its content used
/// while sizes are measured; its own bounds if it clips; else both, so that
/// content which overflows pushes the layout.
pub open spec fn allocation_rect(sizing_pass: bool, clip: bool, max_rect: Rect, used_rect: Rect) -> Rect {
    if sizing_pass {
        used_rect
    } else if clip {
        max_rect
    } else {
        max_rect.spec_union(used_rect)
    }
}

/// The bounds of a cell grown by half the spacing between items and put on
/// device pixels: backgrounds fill it, so that neighbouring cells show no
/// seam.
pub open spec fn gapless_rect(max_rect: Rect, item_spacing: Vec2, pixel_size: i32) -> Rect {
    max_rect.spec_expand2(item_spacing.spec_half()).spec_round_to_grid(pixel_size)
}

/// The clip rectangle of a cell that clips: its bounds and a margin, which
/// is at most half the spacing between items, so that a cell never shows
/// through into its neighbour and never cuts exactly at its own border.
pub open spec fn cell_clip_rect(max_rect: Rect, clip_rect_margin: i32, item_spacing: Vec2) -> Rect {
    max_rect.spec_expand2(Vec2::spec_splat(clip_rect_margin).spec_min(item_spacing.spec_half()))
}

impl StripLayout {
    /// A strip over what is available in `ui`, its first cell at the upper
    /// left corner.
    pub open spec fn spec_new(ui: Ui, direction: CellDirection, cell_layout: Layout, sense: Sense) -> StripLayout {
        let rect = ui.spec_available_rect_before_wrap();
        StripLayout { direction, rect, cursor: rect.min, max: rect.min, cell_layout, sense }
    }

    /// A strip over what is available in `ui`, its first cell at the upper
    /// left corner.
    pub fn new(ui: &Ui, direction: CellDirection, cell_layout: Layout, sense: Sense) -> (s: StripLayout)
        ensures
            s == StripLayout::spec_new(*ui, direction, cell_layout, sense),
    {
        let rect = ui.available_rect_before_wrap();
        let pos = rect.left_top();
        StripLayout { direction, rect, cursor: pos, max: pos, cell_layout, sense }
    }

    /// The bounds of the next cell: from the cursor, as far as the sizes say.
    pub open spec fn spec_cell_rect(&self, width: CellSize, height: CellSize) -> Rect {
        Rect {
            min: self.cursor,
            max: Pos2 {
                x: match width {
                    CellSize::Absolute(w) => sat(self.cursor.x + w) as i32,
                    CellSize::Remainder => self.rect.max.x,
                },
                y: match height {
                    CellSize::Absolute(h) => sat(self.cursor.y + h) as i32,
                    CellSize::Remainder => self.rect.max.y,
                },
            },
        }
    }

    /// The bounds of the next cell: from the cursor, as far as the sizes say.
    pub fn cell_rect(&self, width: &CellSize, height: &CellSize) -> (r: Rect)
        ensures
            r == self.spec_cell_rect(*width, *height),
    {
        Rect {
            min: self.cursor,
            max: Pos2 {
                x: match width {
                    CellSize::Absolute(w) => sat_add(self.cursor.x, *w),
                    CellSize::Remainder => self.rect.right(),
                },
                y: match height {
                    CellSize::Absolute(h) => sat_add(self.cursor.y, *h),
                    CellSize::Remainder => self.rect.bottom(),
                },
            },
        }
    }

    /// The strip after a cell took `rect`: `max` reaches as far as the
    /// cell on both axes, and the cursor lies one spacing past the cell
    /// along the direction of the strip. Across it the cursor stays.
    pub open spec fn spec_set_pos(self, rect: Rect, item_spacing: Vec2) -> StripLayout {
        StripLayout {
            max: self.max.spec_max(rect.max),
            cursor: match self.direction {
                CellDirection::Horizontal => Pos2 {
                    x: sat(rect.max.x + item_spacing.x) as i32,
                    y: self.cursor.y,
                },
                CellDirection::Vertical => Pos2 {
                    x: self.cursor.x,
                    y: sat(rect.max.y + item_spacing.y) as i32,
                },
            },
            ..self
        }
    }

    /// Moves on past a cell that took `rect`.
    pub fn set_pos(&mut self, ui: &Ui, rect: Rect)
        ensures
            *final(self) == old(self).spec_set_pos(rect, ui.style.spacing.item_spacing),
    {
        self.max.x = at_least(self.max.x, rect.right());
        self.max.y = at_least(self.max.y, rect.bottom());
        match self.direction {
            CellDirection::Horizontal => {
                self.cursor.x = sat_add(rect.right(), ui.style().spacing.item_spacing.x);
            },
            CellDirection::Vertical => {
                self.cursor.y = sat_add(rect.bottom(), ui.style().spacing.item_spacing.y);
            },
        }
    }

    /// Leaves a cell of the given size empty.
    pub fn empty(&mut self, ui: &Ui, width: CellSize, height: CellSize)
        ensures
            *final(self) == old(self).spec_set_pos(
                old(self).spec_cell_rect(width, height),
                ui.style.spacing.item_spacing,
            ),
    {
        let rect = self.cell_rect(&width, &height);
        self.set_pos(ui, rect);
    }

    /// The strip at the start of the next line: along its direction the
    /// cursor is back at the origin of the strip, and across it lies one
    /// spacing past the farthest that any cell has reached.
    pub open spec fn spec_end_line(self, item_spacing: Vec2) -> StripLayout {
        StripLayout {
            cursor: match self.direction {
                CellDirection::Horizontal => Pos2 {
                    x: self.rect.min.x,
                    y: sat(self.max.y + item_spacing.y) as i32,
                },
                CellDirection::Vertical => Pos2 {
                    x: sat(self.max.x + item_spacing.x) as i32,
                    y: self.rect.min.y,
                },
            },
            ..self
        }
    }

    /// Starts a new line. Strips of one line do not need it.
    pub fn end_line(&mut self, ui: &Ui)
        ensures
            *final(self) == old(self).spec_end_line(ui.style.spacing.item_spacing),
    {
        match self.direction {
            CellDirection::Horizontal => {
                self.cursor.y = sat_add(self.max.y, ui.style().spacing.item_spacing.y);
                self.cursor.x = self.rect.left();
            },
            CellDirection::Vertical => {
                self.cursor.x = sat_add(self.max.x, ui.style().spacing.item_spacing.x);
                self.cursor.y = self.rect.top();
            },
        }
    }

    /// Moves the cursor by `delta` and takes the space between in `ui`.
    pub fn skip_space(&mut self, ctx: &mut PassContext, ui: &mut Ui, delta: Vec2) -> (r: Response)
        ensures
            *final(self) == (StripLayout { cursor: old(self).cursor.spec_offset(delta), ..*old(self) }),
            *final(ui) == old(ui).spec_advance_cursor_after_rect(
                Rect::spec_from_two_pos(old(self).cursor, final(self).cursor).spec_round_to_grid(
                    old(ctx)@.pixel_size,
                ),
            ),
            final(ctx)@ == old(ctx)@.interact(
                Rect::spec_from_two_pos(old(self).cursor, final(self).cursor).spec_round_to_grid(
                    old(ctx)@.pixel_size,
                ),
                old(ui).auto_id(),
                Sense::spec_hover(),
            ),
    {
        let before = self.cursor;
        self.cursor = self.cursor.offset(delta);
        let rect = Rect::from_two_pos(before, self.cursor);
        ui.allocate_rect(ctx, rect, Sense::hover())
    }

    /// The rectangle that the strip has used: from its origin as far as
    /// any cell has reached.
    pub open spec fn used_rect(&self) -> Rect {
        self.rect.spec_with_right(self.max.x).spec_with_bottom(self.max.y)
    }

    /// Takes what the strip has used in `ui`, so that a scroll area around
    /// it learns its size.
    pub fn allocate_rect(&mut self, ctx: &mut PassContext, ui: &mut Ui) -> (r: Response)
        ensures
            *final(self) == *old(self),
            *final(ui) == old(ui).spec_advance_cursor_after_rect(
                old(self).used_rect().spec_round_to_grid(old(ctx)@.pixel_size),
            ),
            final(ctx)@ == old(ctx)@.interact(
                old(self).used_rect().spec_round_to_grid(old(ctx)@.pixel_size),
                old(ui).auto_id(),
                Sense::spec_hover(),
            ),
            r == old(ctx)@.response_to(
                old(self).used_rect().spec_round_to_grid(old(ctx)@.pixel_size),
                old(ui).auto_id(),
                Sense::spec_hover(),
            ),
    {
        let mut rect = self.rect;
        rect.set_right(self.max.x);
        rect.set_bottom(self.max.y);
        ui.allocate_rect(ctx, rect, Sense::hover())
    }

    /// The state after the backgrounds of a cell are painted, each over the
    /// whole gapless rectangle and in this order: the stripe, if the cell
    /// is striped; the selection, if it is selected; the hover, if it is
    /// hovered and not selected and the strip senses clicks or drags.
    pub open spec fn backgrounds(&self, ctx: PassView, ui: Ui, flags: StripLayoutFlags, max_rect: Rect) -> PassView {
        let gapless = gapless_rect(max_rect, ui.style.spacing.item_spacing, ctx.pixel_size);
        let striped = if flags.striped {
            ui.painter.spec_add(ctx, Shape::spec_rect_filled(gapless, 0, ui.style.visuals.faint_bg_color))
        } else {
            ctx
        };
        let selected = if flags.selected {
            ui.painter.spec_add(
                striped,
                Shape::spec_rect_filled(gapless, 0, ui.style.visuals.selection.bg_fill),
            )
        } else {
            striped
        };
        if flags.hovered && !flags.selected && self.sense.spec_interactive() {
            ui.painter.spec_add(
                selected,
                Shape::spec_rect_filled(gapless, 0, ui.style.visuals.widgets.hovered.bg_fill),
            )
        } else {
            selected
        }
    }

    /// Paints the backgrounds of a cell.
    fn paint_backgrounds(&self, ctx: &mut PassContext, ui: &Ui, flags: StripLayoutFlags, max_rect: Rect)
        ensures
            final(ctx)@ == self.backgrounds(old(ctx)@, *ui, flags, max_rect),
    {
        // Half the spacing to each side: no gap is left between the
        // backgrounds of neighbouring cells.
        let item_spacing = ui.style().spacing.item_spacing;
        let gapless = max_rect.expand2(item_spacing.half()).round_to_grid(ctx.pixel_size());
        if flags.striped {
            let _ = ui.painter().rect_filled(ctx, gapless, 0, ui.style().visuals.faint_bg_color);
        }
        if flags.selected {
            let _ = ui.painter().rect_filled(ctx, gapless, 0, ui.style().visuals.selection.bg_fill);
        }
        if flags.hovered && !flags.selected && self.sense.interactive() {
            let _ = ui.painter().rect_filled(ctx, gapless, 0, ui.style().visuals.widgets.hovered.bg_fill);
        }
    }

    /// The region that the content of a cell is given. A cell that clips
    /// has its clip rectangle narrowed to its bounds and a small margin,
    /// and asks text to truncate unless sizes are only measured; a selected
    /// cell paints its text in the colour of the selection's stroke.
    pub open spec fn cell_ui(&self, ui: Ui, flags: StripLayoutFlags, max_rect: Rect, child_ui_id_salt: Id) -> Ui {
        let builder = UiBuilder::spec_new().spec_id_salt(child_ui_id_salt).spec_ui_stack_info(
            UiKind::TableCell,
        ).spec_max_rect(max_rect).spec_layout(self.cell_layout).spec_sense(self.sense);
        let child = ui.spec_new_child(
            if flags.sizing_pass {
                builder.spec_sizing_pass()
            } else {
                builder
            },
        );
        let clipped = if flags.clip {
            let narrowed = child.spec_with_clip_rect(
                child.painter.clip_rect.spec_intersect(
                    cell_clip_rect(max_rect, ui.style.visuals.clip_rect_margin, ui.style.spacing.item_spacing),
                ),
            );
            if !narrowed.sizing_pass {
                Ui {
                    style: Style { wrap_mode: Some(TextWrapMode::Truncate), ..narrowed.style },
                    ..narrowed
                }
            } else {
                narrowed
            }
        } else {
            child
        };
        if flags.selected {
            Ui {
                style: Style {
                    visuals: Visuals {
                        override_text_color: Some(clipped.style.visuals.selection.stroke.color),
                        ..clipped.style.visuals
                    },
                    ..clipped.style
                },
                ..clipped
            }
        } else {
            clipped
        }
    }

    /// Makes the region for the content of a cell.
    fn make_cell_ui(&self, ui: &Ui, flags: StripLayoutFlags, max_rect: Rect, child_ui_id_salt: Id) -> (child:
        Ui)
        ensures
            child == self.cell_ui(*ui, flags, max_rect, child_ui_id_salt),
    {
        let mut ui_builder = UiBuilder::new().id_salt(child_ui_id_salt).ui_stack_info(UiKind::TableCell).max_rect(
            max_rect,
        ).layout(self.cell_layout).sense(self.sense);
        if flags.sizing_pass {
            ui_builder = ui_builder.sizing_pass();
        }
        let mut child_ui = ui.new_child(ui_builder);
        if flags.clip {
            let margin = Vec2::splat(ui.style().visuals.clip_rect_margin);
            let margin = margin.min(ui.style().spacing.item_spacing.half());
            let clip_rect = max_rect.expand2(margin);
            child_ui.shrink_clip_rect(clip_rect);
            if !child_ui.is_sizing_pass() {
                // Better to truncate, where the content can, than to cut.
                child_ui.style.wrap_mode = Some(TextWrapMode::Truncate);
            }
        }
        if flags.selected {
            let stroke_color = child_ui.style.visuals.selection.stroke.color;
            child_ui.style.visuals.override_text_color = Some(stroke_color);
        }
        child_ui
    }

    /// The state in which the content of a cell starts, after the overline
    /// is drawn if the cell has one.
    pub open spec fn cell_ctx(
        &self,
        ctx: PassView,
        ui: Ui,
        flags: StripLayoutFlags,
        max_rect: Rect,
        child_ui_id_salt: Id,
    ) -> PassView {
        let child = self.cell_ui(ui, flags, max_rect, child_ui_id_salt);
        if flags.overline {
            child.painter.spec_add(
                ctx,
                hline_spec(
                    max_rect.spec_x_range(),
                    max_rect.min.y,
                    child.style.visuals.widgets.noninteractive.bg_stroke,
                ),
            )
        } else {
            ctx
        }
    }

    /// Runs the content of a cell in a region of its own and returns that
    /// region as the content left it.
    pub fn cell<F: FnOnce(PassContext, Ui) -> (PassContext, Ui)>(
        &self,
        ctx: &mut PassContext,
        ui: &Ui,
        flags: StripLayoutFlags,
        max_rect: Rect,
        child_ui_id_salt: Id,
        add_cell_contents: F,
    ) -> (child: Ui)
        requires
            forall|before: PassContext|
                before@ == self.cell_ctx(old(ctx)@, *ui, flags, max_rect, child_ui_id_salt)
                    ==> add_cell_contents.requires(
                    (before, self.cell_ui(*ui, flags, max_rect, child_ui_id_salt)),
                ),
        ensures
            exists|before: PassContext|
                before@ == self.cell_ctx(old(ctx)@, *ui, flags, max_rect, child_ui_id_salt)
                    && #[trigger] add_cell_contents.ensures(
                    (before, self.cell_ui(*ui, flags, max_rect, child_ui_id_salt)),
                    (*final(ctx), child),
                ),
    {
        let child_ui = self.make_cell_ui(ui, flags, max_rect, child_ui_id_salt);
        if flags.overline {
            let _ = child_ui.painter().hline(
                ctx,
                max_rect.x_range(),
                max_rect.top(),
                child_ui.style.visuals.widgets.noninteractive.bg_stroke,
            );
        }
        let before = ctx.take();
        let ghost before_g = before;
        let (after, child) = add_cell_contents(before, child_ui);
        *ctx = after;
        proof {
            assert(add_cell_contents.ensures(
                (before_g, self.cell_ui(*ui, flags, max_rect, child_ui_id_salt)),
                (*ctx, child),
            ));
        }
        child
    }

    /// The state in which the content of the next cell starts: the
    /// backgrounds are painted, then the overline.
    pub open spec fn before_cell(
        &self,
        ctx: PassView,
        ui: Ui,
        flags: StripLayoutFlags,
        max_rect: Rect,
        child_ui_id_salt: Id,
    ) -> PassView {
        self.cell_ctx(self.backgrounds(ctx, ui, flags, max_rect), ui, flags, max_rect, child_ui_id_salt)
    }

    /// What adding a cell leaves behind, given the state `after` and the
    /// region `child` in which its content ended: the strip and `ui` move on
    /// past what the cell claims, and the whole cell, grown to its bounds,
    /// is registered for interaction.
    pub open spec fn after_cell(
        self,
        ui: Ui,
        flags: StripLayoutFlags,
        max_rect: Rect,
        after: PassView,
        child: Ui,
    ) -> CellAdded {
        let whole = child.spec_set_min_size(max_rect.spec_size());
        let claimed = allocation_rect(ui.sizing_pass, flags.clip, max_rect, child.min_rect);
        CellAdded {
            strip: self.spec_set_pos(claimed, ui.style.spacing.item_spacing),
            ctx: after.interact(whole.min_rect, whole.id, whole.sense),
            ui: ui.spec_advance_cursor_after_rect(claimed),
            used_rect: child.min_rect,
            response: after.response_to(whole.min_rect, whole.id, whole.sense),
        }
    }

    /// Whether `added` is what adding a cell of the given sizes leaves
    /// behind and returns, for some run of `add_cell_contents`.
    pub open spec fn added<F: FnOnce(PassContext, Ui) -> (PassContext, Ui)>(
        self,
        ctx: PassView,
        ui: Ui,
        flags: StripLayoutFlags,
        width: CellSize,
        height: CellSize,
        child_ui_id_salt: Id,
        add_cell_contents: F,
        added: CellAdded,
    ) -> bool {
        let max_rect = self.spec_cell_rect(width, height);
        exists|before: PassContext, after: PassContext, child: Ui|
            before@ == self.before_cell(ctx, ui, flags, max_rect, child_ui_id_salt)
                && #[trigger] add_cell_contents.ensures(
                (before, self.cell_ui(ui, flags, max_rect, child_ui_id_salt)),
                (after, child),
            ) && added == self.after_cell(ui, flags, max_rect, after@, child)
    }

    /// Adds a cell of the given sizes and runs its content. Returns what
    /// the content used and the response of the whole cell.
    pub fn add<F: FnOnce(PassContext, Ui) -> (PassContext, Ui)>(
        &mut self,
        ctx: &mut PassContext,
        ui: &mut Ui,
        flags: StripLayoutFlags,
        width: CellSize,
        height: CellSize,
        child_ui_id_salt: Id,
        add_cell_contents: F,
    ) -> (out: (Rect, Response))
        requires
            forall|before: PassContext|
                before@ == old(self).before_cell(
                    old(ctx)@,
                    *old(ui),
                    flags,
                    old(self).spec_cell_rect(width, height),
                    child_ui_id_salt,
                ) ==> add_cell_contents.requires(
                    (
                        before,
                        old(self).cell_ui(
                            *old(ui),
                            flags,
                            old(self).spec_cell_rect(width, height),
                            child_ui_id_salt,
                        ),
                    ),
                ),
        ensures
            old(self).added(
                old(ctx)@,
                *old(ui),
                flags,
                width,
                height,
                child_ui_id_salt,
                add_cell_contents,
                CellAdded {
                    strip: *final(self),
                    ctx: final(ctx)@,
                    ui: *final(ui),
                    used_rect: out.0,
                    response: out.1,
                },
            ),
    {
        let max_rect = self.cell_rect(&width, &height);
        self.paint_backgrounds(ctx, ui, flags, max_rect);
        let mut child_ui = self.cell(ctx, ui, flags, max_rect, child_ui_id_salt, add_cell_contents);
        let ghost after = *ctx;
        let ghost child = child_ui;
        let used_rect = child_ui.min_rect();
        // Clicks are caught on the whole cell.
        child_ui.set_min_size(max_rect.size());
        let allocation_rect = if ui.is_sizing_pass() {
            used_rect
        } else if flags.clip {
            max_rect
        } else {
            max_rect.union(used_rect)
        };
        self.set_pos(ui, allocation_rect);
        ui.advance_cursor_after_rect(allocation_rect);
        let response = child_ui.response(ctx);
        proof {
            let before = choose|before: PassContext|
                before@ == old(self).cell_ctx(
                    old(self).backgrounds(old(ctx)@, *old(ui), flags, max_rect),
                    *old(ui),
                    flags,
                    max_rect,
                    child_ui_id_salt,
                ) && #[trigger] add_cell_contents.ensures(
                    (before, old(self).cell_ui(*old(ui), flags, max_rect, child_ui_id_salt)),
                    (after, child),
                );
            assert(add_cell_contents.ensures(
                (before, old(self).cell_ui(*old(ui), flags, max_rect, child_ui_id_salt)),
                (after, child),
            ));
        }
        (used_rect, response)
    }
}

} // verus!
