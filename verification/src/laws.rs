//! What holds of the library as a whole, proved from the contracts of its
//! functions.

use vstd::prelude::*;
use crate::central_panel::CentralPanel;
use crate::color::Color32;
use crate::context::{animate_spec, InnerResponse, PassContext, PassState, PassView};
use crate::geom::{Pos2, Rangei, Rect, Vec2};
use crate::id::{lookup, IdSalt};
use crate::layers::{clipped, shapes_of, ClippedShape, LayerId};
use crate::num::{clamp_int, in_bounds, max_int, round_int, sat, scale_int, COORD_LIMIT, ONE};
use crate::painter::Painter;
use crate::panel::{resolve_extent, Edge, EdgePanel, PanelState, Shown};
use crate::shape::{ColorAdjust, Shape};
use crate::strip::{cell_clip_rect, CellDirection, StripLayout};
use crate::ui::Ui;

verus! {

/// The painter reached from `painter` by one `with_clip_rect` for each
/// rectangle of `rects`, in order.
pub open spec fn clip_chain(painter: Painter, rects: Seq<Rect>) -> Painter
    decreases rects.len(),
{
    if rects.len() == 0 {
        painter
    } else {
        clip_chain(painter, rects.drop_last()).spec_with_clip_rect(rects.last())
    }
}

/// Clip rectangles only shrink: after any chain of `with_clip_rect`, the
/// clip rectangle lies within that of every painter on the way, the first
/// included, and every point it holds is held by theirs.
pub proof fn lemma_clip_monotone(painter: Painter, rects: Seq<Rect>, k: int)
    requires
        0 <= k <= rects.len(),
    ensures
        clip_chain(painter, rects).clip_rect.is_within(clip_chain(painter, rects.take(k)).clip_rect),
        forall|p: Pos2|
            clip_chain(painter, rects).clip_rect.spec_contains(p) ==> clip_chain(
                painter,
                rects.take(k),
            ).clip_rect.spec_contains(p),
    decreases rects.len(),
{
    if k == rects.len() {
        assert(rects.take(k) =~= rects);
    } else {
        lemma_clip_monotone(painter, rects.drop_last(), k);
        assert(rects.drop_last().take(k) =~= rects.take(k));
    }
}

/// An opacity that was set lies in `[0, ONE]`, and multiplying keeps it
/// there; multiplying by `ONE` or more changes nothing.
pub proof fn lemma_opacity_composes(opacity: i32, by: i32)
    requires
        0 <= opacity <= ONE,
    ensures
        0 <= scale_int(opacity as int, clamp_int(by as int, 0, ONE as int)) <= opacity,
        by >= ONE ==> scale_int(opacity as int, clamp_int(by as int, 0, ONE as int)) == opacity,
        by <= 0 ==> scale_int(opacity as int, clamp_int(by as int, 0, ONE as int)) == 0,
{
    let f = clamp_int(by as int, 0, ONE as int);
    assert(0 <= (opacity as int * f) / 65536 <= opacity as int) by (nonlinear_arith)
        requires
            0 <= opacity as int <= 65536,
            0 <= f <= 65536,
    ;
    assert((opacity as int * 65536) / 65536 == opacity as int) by (nonlinear_arith);
    assert((opacity as int * 0) / 65536 == 0) by (nonlinear_arith);
}

/// The placeholder colour is immune: whatever a painter's fade colour and
/// opacity, a colour of a shape that is the placeholder is the placeholder
/// in the transformed shape, at the same place.
pub proof fn lemma_placeholder_immune(painter: Painter, shape: Shape, i: int)
    requires
        0 <= i < shape.colors().len(),
        shape.colors()[i] == Color32::spec_placeholder(),
    ensures
        painter.spec_transform_shape(shape).colors().len() == shape.colors().len(),
        painter.spec_transform_shape(shape).colors()[i] == Color32::spec_placeholder(),
{
    let faded = match painter.fade_to_color {
        Some(target) => shape.spec_adjust_colors(ColorAdjust::TintTowards(target)),
        None => shape,
    };
    match painter.fade_to_color {
        Some(target) => {
            shape.lemma_adjust_keeps_placeholder(ColorAdjust::TintTowards(target), i);
        },
        None => {},
    }
    if painter.opacity_factor < ONE {
        faded.lemma_adjust_keeps_placeholder(ColorAdjust::Opacity(painter.opacity_factor), i);
    }
}

/// The extent that a panel gets never exceeds what is available; it is what
/// the panel wants, brought into its range, whenever that fits.
pub proof fn lemma_extent_clamped(wanted: i32, range: Rangei, available: i32)
    ensures
        resolve_extent(wanted, range, available) <= available,
        range.spec_clamp(wanted) <= available ==> resolve_extent(wanted, range, available)
            == range.spec_clamp(wanted),
        range.spec_clamp(wanted) > available ==> resolve_extent(wanted, range, available) == available,
        range.min <= range.max ==> range.min <= range.spec_clamp(wanted) <= range.max,
        range.min <= wanted <= range.max ==> range.spec_clamp(wanted) == wanted,
{
}

/// Settling an extent twice is settling it once.
pub proof fn lemma_extent_idempotent(wanted: i32, range: Rangei, available: i32)
    ensures
        resolve_extent(resolve_extent(wanted, range, available), range, available) == resolve_extent(
            wanted,
            range,
            available,
        ),
{
}

/// A panel that wants more gets no less.
pub proof fn lemma_extent_monotone(a: i32, b: i32, range: Rangei, available: i32)
    requires
        a <= b,
    ensures
        resolve_extent(a, range, available) <= resolve_extent(b, range, available),
{
}

/// Panels take from the budget in order: after a left panel and a right
/// panel, what is left for the central panel is as wide as what was
/// available, less the widths that the two took. The same holds of top and
/// bottom panels and the height.
pub proof fn lemma_panels_share_budget(pass: PassState, first: Rect, second: Rect)
    requires
        pass.available_rect.in_bounds(),
        first.in_bounds(),
        second.in_bounds(),
    ensures
        ({
            let left = Edge::Left.allocate(pass, pass.available_rect, first);
            let both = Edge::Right.allocate(left, left.available_rect, second);
            let left_width = first.max.x - pass.available_rect.min.x;
            let right_width = pass.available_rect.max.x - second.min.x;
            &&& both.available_rect.spec_width() == pass.available_rect.spec_width() - left_width
                - right_width
            &&& both.available_rect.spec_height() == pass.available_rect.spec_height()
            &&& both.spec_allocate_central_panel(both.available_rect).available_rect
                == both.available_rect
        }),
        ({
            let top = Edge::Top.allocate(pass, pass.available_rect, first);
            let both = Edge::Bottom.allocate(top, top.available_rect, second);
            let top_height = first.max.y - pass.available_rect.min.y;
            let bottom_height = pass.available_rect.max.y - second.min.y;
            &&& both.available_rect.spec_height() == pass.available_rect.spec_height() - top_height
                - bottom_height
            &&& both.available_rect.spec_width() == pass.available_rect.spec_width()
        }),
{
}

/// The strip after one cell for each rectangle of `rects`, in order.
pub open spec fn after_cells(strip: StripLayout, rects: Seq<Rect>, item_spacing: Vec2) -> StripLayout
    decreases rects.len(),
{
    if rects.len() == 0 {
        strip
    } else {
        after_cells(strip, rects.drop_last(), item_spacing).spec_set_pos(rects.last(), item_spacing)
    }
}

/// The greatest of `start` and the bottom edges of `rects`.
pub open spec fn lowest_bottom(start: int, rects: Seq<Rect>) -> int
    decreases rects.len(),
{
    if rects.len() == 0 {
        start
    } else {
        max_int(lowest_bottom(start, rects.drop_last()), rects.last().max.y as int)
    }
}

/// The greatest of `start` and the right edges of `rects`.
pub open spec fn farthest_right(start: int, rects: Seq<Rect>) -> int
    decreases rects.len(),
{
    if rects.len() == 0 {
        start
    } else {
        max_int(farthest_right(start, rects.drop_last()), rects.last().max.x as int)
    }
}

/// Lines do not overlap: when a line of cells ends, the next line begins
/// one spacing past the farthest that any cell of the strip has reached
/// across the direction of the strip, whichever cell that was, and so past
/// every cell. Along the direction it begins where the strip begins.
pub proof fn lemma_lines_do_not_overlap(strip: StripLayout, rects: Seq<Rect>, item_spacing: Vec2, i: int)
    requires
        0 <= i < rects.len(),
    ensures
        ({
            let next = after_cells(strip, rects, item_spacing).spec_end_line(item_spacing);
            match strip.direction {
                CellDirection::Horizontal => {
                    &&& next.cursor.y == sat(lowest_bottom(strip.max.y as int, rects) + item_spacing.y)
                    &&& lowest_bottom(strip.max.y as int, rects) >= rects[i].max.y
                    &&& next.cursor.x == strip.rect.min.x
                },
                CellDirection::Vertical => {
                    &&& next.cursor.x == sat(farthest_right(strip.max.x as int, rects) + item_spacing.x)
                    &&& farthest_right(strip.max.x as int, rects) >= rects[i].max.x
                    &&& next.cursor.y == strip.rect.min.y
                },
            }
        }),
    decreases rects.len(),
{
    lemma_after_cells(strip, rects, item_spacing);
    lemma_reach(strip.max.y as int, strip.max.x as int, rects, i);
}

/// What `after_cells` keeps and what it collects.
pub proof fn lemma_after_cells(strip: StripLayout, rects: Seq<Rect>, item_spacing: Vec2)
    ensures
        after_cells(strip, rects, item_spacing).direction == strip.direction,
        after_cells(strip, rects, item_spacing).rect == strip.rect,
        after_cells(strip, rects, item_spacing).max.y == lowest_bottom(strip.max.y as int, rects),
        after_cells(strip, rects, item_spacing).max.x == farthest_right(strip.max.x as int, rects),
    decreases rects.len(),
{
    if rects.len() > 0 {
        lemma_after_cells(strip, rects.drop_last(), item_spacing);
    }
}

/// The farthest reach is at least that of every cell.
pub proof fn lemma_reach(start_y: int, start_x: int, rects: Seq<Rect>, i: int)
    requires
        0 <= i < rects.len(),
    ensures
        lowest_bottom(start_y, rects) >= rects[i].max.y,
        lowest_bottom(start_y, rects) >= start_y,
        farthest_right(start_x, rects) >= rects[i].max.x,
        farthest_right(start_x, rects) >= start_x,
    decreases rects.len(),
{
    if i < rects.len() - 1 {
        lemma_reach(start_y, start_x, rects.drop_last(), i);
    } else if rects.len() > 1 {
        lemma_reach(start_y, start_x, rects.drop_last(), 0);
    } else {
        assert(lowest_bottom(start_y, rects.drop_last()) == start_y);
        assert(farthest_right(start_x, rects.drop_last()) == start_x);
    }
}

/// The largest pixel size for which the laws on rounding are stated.
pub const PIXEL_LIMIT: i32 = 0x10_0000;

/// Rounding to a grid moves a value by no more than half a cell, lands on
/// the grid, keeps the order of values, and does not saturate while values
/// and cell are of moderate size.
pub proof fn lemma_round(v: int, w: int, grid: int)
    requires
        2 <= grid <= PIXEL_LIMIT,
        -0x6000_0000 <= v <= 0x6000_0000,
        -0x6000_0000 <= w <= 0x6000_0000,
    ensures
        round_int(v, grid) == ((v + grid / 2) / grid) * grid,
        round_int(v, grid) % grid == 0,
        v - grid / 2 <= round_int(v, grid) + (grid - 1) - (grid / 2) * 2,
        v - (grid - 1 - grid / 2) <= round_int(v, grid) <= v + grid / 2,
        v <= w ==> round_int(v, grid) <= round_int(w, grid),
{
    let h = grid / 2;
    let q = (v + h) / grid;
    let q2 = (w + h) / grid;
    assert(q * grid <= v + h < q * grid + grid && (q * grid) % grid == 0) by (nonlinear_arith)
        requires
            q == (v + h) / grid,
            grid >= 2,
    ;
    assert(q2 * grid <= w + h < q2 * grid + grid) by (nonlinear_arith)
        requires
            q2 == (w + h) / grid,
            grid >= 2,
    ;
    assert(v <= w ==> q * grid <= q2 * grid) by (nonlinear_arith)
        requires
            q == (v + h) / grid,
            q2 == (w + h) / grid,
            grid >= 2,
    ;
}

/// A value that lies as far from a grid point as some value lies from its
/// own rounding rounds to that grid point.
pub proof fn lemma_round_offset(a: int, b: int, grid: int)
    requires
        2 <= grid <= PIXEL_LIMIT,
        -0x6000_0000 <= a <= 0x6000_0000,
        -0x6000_0000 <= b <= 0x6000_0000,
        -0x6000_0000 <= round_int(a, grid) + (b - round_int(b, grid)) <= 0x6000_0000,
    ensures
        round_int(round_int(a, grid) + (b - round_int(b, grid)), grid) == round_int(a, grid),
{
    let h = grid / 2;
    lemma_round(a, b, grid);
    let k = (a + h) / grid;
    let t = (b + h) - ((b + h) / grid) * grid;
    assert(0 <= t < grid) by (nonlinear_arith)
        requires
            t == (b + h) - ((b + h) / grid) * grid,
            grid >= 2,
    ;
    let moved = round_int(a, grid) + (b - round_int(b, grid));
    assert(moved + h == k * grid + t);
    lemma_round(moved, moved, grid);
    assert((k * grid + t) / grid == k) by (nonlinear_arith)
        requires
            0 <= t < grid,
            grid >= 2,
    ;
}

/// The coordinate of the moving edge of a panel of extent `extent` whose
/// fixed edge lies at `origin`.
pub open spec fn moving_edge(edge: Edge, origin: int, extent: int) -> int {
    match edge {
        Edge::Left => origin + extent,
        Edge::Top => origin + extent,
        Edge::Right => origin - extent,
        Edge::Bottom => origin - extent,
    }
}

/// Along one axis: the extent of a panel after rounding, settled again,
/// puts the panel's moving edge where it was.
pub proof fn lemma_axis_round_trip(edge: Edge, origin: int, wanted: i32, range: Rangei, room: i32, grid: int)
    requires
        grid <= PIXEL_LIMIT,
        in_bounds(origin),
        0 <= room <= 2 * COORD_LIMIT,
        in_bounds(moving_edge(edge, origin, room as int)),
        -COORD_LIMIT <= range.min,
        -COORD_LIMIT <= range.max,
    ensures
        ({
            let first = resolve_extent(wanted, range, room);
            let at = round_int(moving_edge(edge, origin, first as int), grid);
            let kept = match edge {
                Edge::Left => at - round_int(origin, grid),
                Edge::Top => at - round_int(origin, grid),
                Edge::Right => round_int(origin, grid) - at,
                Edge::Bottom => round_int(origin, grid) - at,
            };
            &&& -0x7000_0000 <= kept <= 0x7000_0000
            &&& -0x6000_0000 <= at <= 0x6000_0000
            &&& -0x6000_0000 <= round_int(origin, grid) <= 0x6000_0000
            &&& round_int(
                moving_edge(edge, origin, resolve_extent(kept as i32, range, room) as int),
                grid,
            ) == at
        }),
{
    let first = resolve_extent(wanted, range, room);
    assert(-COORD_LIMIT <= first <= room);
    let to = moving_edge(edge, origin, first as int);
    if grid <= 1 {
        lemma_extent_idempotent(wanted, range, room);
    } else {
        let at = round_int(to, grid);
        lemma_round(to, origin, grid);
        lemma_round(origin, origin, grid);
        let kept: int = match edge {
            Edge::Left => at - round_int(origin, grid),
            Edge::Top => at - round_int(origin, grid),
            Edge::Right => round_int(origin, grid) - at,
            Edge::Bottom => round_int(origin, grid) - at,
        };
        assert(first - 2 * grid <= kept <= first + 2 * grid);
        let again = resolve_extent(kept as i32, range, room);
        lemma_extent_idempotent(wanted, range, room);
        if kept >= first {
            lemma_extent_monotone(first, kept as i32, range, room);
        } else {
            lemma_extent_monotone(kept as i32, first, range, room);
        }
        // Settling moves the kept extent towards the first one, not past it.
        assert(first <= again <= kept || kept <= again <= first);
        let back = moving_edge(edge, origin, kept);
        assert(back == at + (origin - round_int(origin, grid)));
        lemma_round_offset(to, origin, grid);
        let there = moving_edge(edge, origin, again as int);
        lemma_round(there, back, grid);
        lemma_round(back, there, grid);
        lemma_round(there, to, grid);
        lemma_round(to, there, grid);
    }
}

/// A panel's rectangle, kept and settled again in the same space, is the
/// same rectangle.
pub proof fn lemma_rect_round_trip(edge: Edge, available: Rect, wanted: i32, range: Rangei, grid: i32)
    requires
        available.in_bounds(),
        available.min.x <= available.max.x,
        available.min.y <= available.max.y,
        grid <= PIXEL_LIMIT,
        -COORD_LIMIT <= range.min,
        -COORD_LIMIT <= range.max,
    ensures
        ({
            let room = edge.spec_extent_of(available);
            let kept = edge.spec_with_extent(available, resolve_extent(wanted, range, room)).spec_round_to_grid(
                grid,
            );
            edge.spec_with_extent(
                available,
                resolve_extent(edge.spec_extent_of(kept), range, room),
            ).spec_round_to_grid(grid) == kept
        }),
{
    let room = edge.spec_extent_of(available);
    let origin: int = match edge {
        Edge::Left => available.min.x as int,
        Edge::Right => available.max.x as int,
        Edge::Top => available.min.y as int,
        Edge::Bottom => available.max.y as int,
    };
    lemma_axis_round_trip(edge, origin, wanted, range, room, grid as int);
    let first = resolve_extent(wanted, range, room);
    assert(-COORD_LIMIT <= first <= room);
    let kept = edge.spec_with_extent(available, first).spec_round_to_grid(grid);
    let again = resolve_extent(edge.spec_extent_of(kept), range, room);
    assert(-COORD_LIMIT <= again <= room);
    match edge {
        Edge::Left => {
            assert(edge.spec_with_extent(available, first).max.x == available.min.x + first);
            assert(edge.spec_with_extent(available, again).max.x == available.min.x + again);
        },
        Edge::Right => {
            assert(edge.spec_with_extent(available, first).min.x == available.max.x - first);
            assert(edge.spec_with_extent(available, again).min.x == available.max.x - again);
        },
        Edge::Top => {
            assert(edge.spec_with_extent(available, first).max.y == available.min.y + first);
            assert(edge.spec_with_extent(available, again).max.y == available.min.y + again);
        },
        Edge::Bottom => {
            assert(edge.spec_with_extent(available, first).min.y == available.max.y - first);
            assert(edge.spec_with_extent(available, again).min.y == available.max.y - again);
        },
    }
}

/// Layout is idempotent: when the rectangle that a panel settled on is kept
/// and loaded again in the next pass, with the same space available, the
/// same pixel size and no drag, the panel settles on the same rectangle,
/// and so is as wide and as high as before.
pub proof fn lemma_round_trip(panel: EdgePanel, first: PassView, second: PassView, ui: Ui)
    requires
        panel.dragged_to(first).is_none(),
        panel.dragged_to(second).is_none(),
        second.pixel_size == first.pixel_size,
        lookup(second.panels, panel.id) == Some(PanelState { rect: panel.negotiate(first, ui).panel_rect }),
        ui.spec_available_rect_before_wrap().in_bounds(),
        first.pixel_size <= PIXEL_LIMIT,
        -COORD_LIMIT <= panel.extent_range.min,
        -COORD_LIMIT <= panel.extent_range.max,
    ensures
        panel.negotiate(second, ui).panel_rect == panel.negotiate(first, ui).panel_rect,
        panel.negotiate(second, ui).panel_rect.spec_width() == panel.negotiate(
            first,
            ui,
        ).panel_rect.spec_width(),
        panel.negotiate(second, ui).panel_rect.spec_height() == panel.negotiate(
            first,
            ui,
        ).panel_rect.spec_height(),
{
    reveal(EdgePanel::negotiate);
    let available = ui.spec_available_rect_before_wrap();
    let room = panel.edge.spec_extent_of(available);
    let wanted = panel.wanted_extent(first, ui);
    let kept = panel.edge.spec_with_extent(
        available,
        resolve_extent(wanted, panel.extent_range, room),
    ).spec_round_to_grid(first.pixel_size);
    assert(panel.negotiate(first, ui).panel_rect == kept);
    assert(panel.wanted_extent(second, ui) == panel.edge.spec_extent_of(kept));
    assert(panel.negotiate(second, ui).panel_rect == panel.edge.spec_with_extent(
        available,
        resolve_extent(panel.edge.spec_extent_of(kept), panel.extent_range, room),
    ).spec_round_to_grid(first.pixel_size));
    lemma_rect_round_trip(panel.edge, available, wanted, panel.extent_range, first.pixel_size);
}

/// Rounding to a grid, for every value and every grid: the result lies
/// within half a cell of the value, and rounding it again changes nothing.
/// Saturation does not disturb either: it only moves the result towards the
/// value.
pub proof fn lemma_round_any(v: i32, grid: i32)
    ensures
        -2147483648 <= round_int(v as int, grid as int) <= 2147483647,
        grid <= 1 ==> round_int(v as int, grid as int) == v,
        grid >= 2 ==> v - (grid - 1 - grid / 2) <= round_int(v as int, grid as int) <= v + grid / 2,
        round_int(round_int(v as int, grid as int), grid as int) == round_int(v as int, grid as int),
{
    if grid >= 2 {
        let g = grid as int;
        let h = g / 2;
        let q = (v + h) / g;
        let m = q * g;
        assert(m <= v + h < m + g) by (nonlinear_arith)
            requires
                q == (v + h) / g,
                m == q * g,
                g >= 2,
        ;
        if m > 2147483647 {
            // A grid point just above the greatest value: the greatest value
            // rounds up to it as well.
            let top = 2147483647int;
            let q2 = (top + h) / g;
            assert(q2 * g >= m) by (nonlinear_arith)
                requires
                    q2 == (top + h) / g,
                    m == q * g,
                    m <= top + h,
                    g >= 2,
            ;
        } else if m < -2147483648 {
            // A grid point just below the least value: the least value
            // rounds down to it, or further.
            let bottom = -2147483648int;
            let q3 = (bottom + h) / g;
            assert(q3 * g <= m) by (nonlinear_arith)
                requires
                    q3 == (bottom + h) / g,
                    q == (v + h) / g,
                    m == q * g,
                    bottom <= v,
                    g >= 2,
            ;
        } else {
            assert((m + h) / g == q) by (nonlinear_arith)
                requires
                    m == q * g,
                    0 <= h < g,
            ;
        }
    }
}

/// A rectangle that was put on device pixels is not moved by putting it on
/// them again.
pub proof fn lemma_round_rect_twice(rect: Rect, grid: i32)
    ensures
        rect.spec_round_to_grid(grid).spec_round_to_grid(grid) == rect.spec_round_to_grid(grid),
{
    lemma_round_any(rect.min.x, grid);
    lemma_round_any(rect.min.y, grid);
    lemma_round_any(rect.max.x, grid);
    lemma_round_any(rect.max.y, grid);
}

/// The region of the central panel is what is left of the budget, put on
/// device pixels: each of its edges lies within half a pixel of the
/// budget's, for every budget and every pixel size, and on the budget's
/// where that edge is on device pixels already.
pub proof fn lemma_central_within_rounding(ctx: PassView)
    ensures
        ({
            let region = CentralPanel::top_ui(ctx).max_rect;
            let budget = ctx.pass.available_rect;
            let half = if ctx.pixel_size >= 2 {
                ctx.pixel_size as int / 2
            } else {
                0int
            };
            &&& region == budget.spec_round_to_grid(ctx.pixel_size)
            &&& budget.min.x - half <= region.min.x <= budget.min.x + half
            &&& budget.max.x - half <= region.max.x <= budget.max.x + half
            &&& budget.min.y - half <= region.min.y <= budget.min.y + half
            &&& budget.max.y - half <= region.max.y <= budget.max.y + half
            &&& round_int(budget.min.x as int, ctx.pixel_size as int) == budget.min.x ==> region.min.x
                == budget.min.x
            &&& round_int(budget.max.x as int, ctx.pixel_size as int) == budget.max.x ==> region.max.x
                == budget.max.x
        }),
{
    let budget = ctx.pass.available_rect;
    lemma_round_any(budget.min.x, ctx.pixel_size);
    lemma_round_any(budget.max.x, ctx.pixel_size);
    lemma_round_any(budget.min.y, ctx.pixel_size);
    lemma_round_any(budget.max.y, ctx.pixel_size);
}

/// The content of the top-level central panel is given the panel's region,
/// made non-negative, less the margin of its frame.
pub proof fn lemma_central_content_region(central: CentralPanel, ctx: PassView)
    ensures
        ({
            let top = CentralPanel::top_ui(ctx);
            central.content_ui(top).max_rect == central.frame_in(top).inner_margin.spec_within(
                top.max_rect.spec_non_negative(),
            )
        }),
{
}

/// A panel shown at the top level meets the budget at its inner edge: what
/// is left for later panels begins, or ends, exactly where the rectangle of
/// the panel's response ends, or begins, whatever the content did. That
/// rectangle lies on the device pixels of the state that the panel leaves.
pub proof fn lemma_shown_panel_meets_budget<R, F: FnOnce(PassContext, Ui) -> (PassContext, Ui, R)>(
    panel: EdgePanel,
    ctx: PassView,
    add_contents: F,
    after: PassView,
    out: InnerResponse<R>,
)
    requires
        panel.shown(ctx, add_contents, after, out),
    ensures
        match panel.edge {
            Edge::Left => after.pass.available_rect.min.x == out.response.rect.max.x,
            Edge::Right => after.pass.available_rect.max.x == out.response.rect.min.x,
            Edge::Top => after.pass.available_rect.min.y == out.response.rect.max.y,
            Edge::Bottom => after.pass.available_rect.max.y == out.response.rect.min.y,
        },
        out.response.rect.spec_round_to_grid(after.pixel_size) == out.response.rect,
{
    reveal(EdgePanel::shown);
    reveal(EdgePanel::shown_inside);
    reveal(EdgePanel::after_content);
    reveal(EdgePanel::ended);
    reveal(EdgePanel::handled);
    reveal(EdgePanel::sealed);
    let top = panel.top_ui(ctx);
    let inside = choose|inside: Shown| #[trigger]
        panel.shown_inside(ctx, top, add_contents, inside, out.inner) && inside.response == out.response
            && after == inside.ctx.with_pass(
            panel.edge.allocate(inside.ctx.pass, ctx.pass.available_rect, out.response.rect),
        );
    let (before, done, content) = choose|before: PassContext, done: PassContext, content: Ui|
        before@ == panel.before_content(ctx, top) && #[trigger] add_contents.ensures(
            (before, panel.content_ui(ctx, top)),
            (done, content, out.inner),
        ) && inside == panel.after_content(ctx, top, done@, content);
    let begun = panel.begun(ctx, top);
    lemma_round_rect_twice(begun.prepared.outer_rect(content), done@.pixel_size);
}

/// Panels share the width: after a left panel and then a right panel,
/// whose content left the budget and the pixel size alone, the region of the
/// central panel starts at the right edge of the left panel's rectangle and
/// ends at the left edge of the right panel's, so that it overlaps neither.
/// Where the two rectangles are flush with the edges of what was available
/// at first, the region is as wide as that was, less the widths of the two.
pub proof fn lemma_central_between_side_panels<
    R1,
    F1: FnOnce(PassContext, Ui) -> (PassContext, Ui, R1),
    R2,
    F2: FnOnce(PassContext, Ui) -> (PassContext, Ui, R2),
>(
    left: EdgePanel,
    right: EdgePanel,
    ctx: PassView,
    first: F1,
    between: PassView,
    out_left: InnerResponse<R1>,
    second: F2,
    after: PassView,
    out_right: InnerResponse<R2>,
)
    requires
        left.edge == Edge::Left,
        right.edge == Edge::Right,
        left.shown(ctx, first, between, out_left),
        right.shown(between, second, after, out_right),
        after.pass.available_rect.min == between.pass.available_rect.min,
        after.pixel_size == between.pixel_size,
    ensures
        ({
            let region = CentralPanel::top_ui(after).max_rect;
            let available = ctx.pass.available_rect;
            let l = out_left.response.rect;
            let r = out_right.response.rect;
            &&& region.min.x == l.max.x
            &&& region.max.x == r.min.x
            &&& l.min.x == available.min.x && r.max.x == available.max.x ==> region.max.x - region.min.x
                == (available.max.x - available.min.x) - (l.max.x - l.min.x) - (r.max.x - r.min.x)
            &&& l.min.x == available.min.x && r.max.x == available.max.x && available.in_bounds()
                && l.in_bounds() && r.in_bounds() ==> region.spec_width() == available.spec_width()
                - l.spec_width() - r.spec_width()
        }),
{
    lemma_shown_panel_meets_budget(left, ctx, first, between, out_left);
    lemma_shown_panel_meets_budget(right, between, second, after, out_right);
    lemma_central_within_rounding(after);
}

/// While the animation of a panel runs, the stand-in keeps its rectangle
/// under an identifier of its own: what is kept for the real panel is as it
/// was.
pub proof fn lemma_stand_in_keeps_real_state(panel: EdgePanel, ctx: PassView, ui: Ui, extent: i32)
    ensures
        panel.spec_stand_in(extent).id != panel.id,
        lookup(panel.spec_stand_in(extent).shown_empty_inside(ctx, ui).ctx.panels, panel.id) == lookup(
            ctx.panels,
            panel.id,
        ),
        lookup(panel.spec_stand_in(extent).shown_empty(ctx).panels, panel.id) == lookup(
            ctx.panels,
            panel.id,
        ),
{
    reveal(EdgePanel::shown_empty_inside);
    reveal(EdgePanel::shown_empty);
    reveal(EdgePanel::after_content);
    reveal(EdgePanel::before_content);
    reveal(EdgePanel::ended);
    reveal(EdgePanel::handled);
    reveal(EdgePanel::sealed);
    reveal(EdgePanel::top_ui);
    panel.id.lemma_with_distinct(IdSalt::AnimatingPanel, IdSalt::Resize);
}

/// An animation moves towards its target and never past it: its progress
/// stays in `[0, ONE]`, does not fall while the target is true, and does not
/// rise while the target is false.
pub proof fn lemma_animation_monotone(before: i32, target: bool, step: i32)
    ensures
        0 <= animate_spec(Some(before), target, step) <= ONE,
        target ==> animate_spec(Some(before), target, step) >= clamp_int(
            before as int,
            0,
            ONE as int,
        ),
        !target ==> animate_spec(Some(before), target, step) <= clamp_int(
            before as int,
            0,
            ONE as int,
        ),
        animate_spec(None, target, step) == if target {
            ONE
        } else {
            0i32
        },
{
}

/// The state after one `add` for each shape of `shapes`, in order.
pub open spec fn added_all(painter: Painter, ctx: PassView, shapes: Seq<Shape>) -> PassView
    decreases shapes.len(),
{
    if shapes.len() == 0 {
        ctx
    } else {
        painter.spec_add(added_all(painter, ctx, shapes.drop_last()), shapes.last())
    }
}

/// Clipping one more shape appends one more clipped shape.
proof fn lemma_clipped_push(painter: Painter, list: Seq<ClippedShape>, shapes: Seq<Shape>)
    requires
        shapes.len() > 0,
    ensures
        list + clipped(painter.clip_rect, painter.transformed_all(shapes)) == (list
            + clipped(painter.clip_rect, painter.transformed_all(shapes.drop_last()))).push(
            ClippedShape {
                clip_rect: painter.clip_rect,
                shape: painter.spec_transform_shape(shapes.last()),
            },
        ),
{
    assert(list + clipped(painter.clip_rect, painter.transformed_all(shapes)) =~= (list
        + clipped(painter.clip_rect, painter.transformed_all(shapes.drop_last()))).push(
        ClippedShape {
            clip_rect: painter.clip_rect,
            shape: painter.spec_transform_shape(shapes.last()),
        },
    ));
}

/// Painting to a layer twice is painting the later list once.
proof fn lemma_paint_twice(
    ctx: PassView,
    layer: LayerId,
    first: Seq<ClippedShape>,
    second: Seq<ClippedShape>,
)
    ensures
        ctx.with_graphics(ctx.graphics.insert(layer, first)).with_graphics(
            ctx.graphics.insert(layer, first).insert(layer, second),
        ) == ctx.with_graphics(ctx.graphics.insert(layer, second)),
        shapes_of(ctx.graphics.insert(layer, first), layer) == first,
{
    assert(ctx.graphics.insert(layer, first).insert(layer, second) =~= ctx.graphics.insert(layer, second));
}

/// `extend` is repeated `add`: a painter that is not blank leaves the same
/// shapes in the same order whether it is given one shape or more at once, or
/// each in its own call.
pub proof fn lemma_extend_is_repeated_add(painter: Painter, ctx: PassView, shapes: Seq<Shape>)
    requires
        !painter.spec_is_blank(),
        shapes.len() > 0,
    ensures
        painter.spec_extend(ctx, shapes) == added_all(painter, ctx, shapes),
    decreases shapes.len(),
{
    let layer = painter.layer_id;
    let front = shapes.drop_last();
    let list = shapes_of(ctx.graphics, layer);
    let last = ClippedShape {
        clip_rect: painter.clip_rect,
        shape: painter.spec_transform_shape(shapes.last()),
    };
    let all = list + clipped(painter.clip_rect, painter.transformed_all(shapes));
    lemma_clipped_push(painter, list, shapes);
    if front.len() == 0 {
        assert(added_all(painter, ctx, front) == ctx);
        assert(list + clipped(painter.clip_rect, painter.transformed_all(front)) =~= list);
    } else {
        lemma_extend_is_repeated_add(painter, ctx, front);
        let sofar = list + clipped(painter.clip_rect, painter.transformed_all(front));
        lemma_paint_twice(ctx, layer, sofar, sofar.push(last));
    }
}

/// A top-level panel and what it leaves do not overlap: what is available
/// after the panel begins where the panel ends.
pub proof fn lemma_panel_and_rest_do_not_overlap(edge: Edge, pass: PassState, rect: Rect)
    ensures
        ({
            let rest = edge.allocate(pass, pass.available_rect, rect).available_rect;
            match edge {
                Edge::Left => rest.min.x == rect.max.x && rest.max == pass.available_rect.max && rest.min.y
                    == pass.available_rect.min.y,
                Edge::Right => rest.max.x == rect.min.x && rest.min == pass.available_rect.min
                    && rest.max.y == pass.available_rect.max.y,
                Edge::Top => rest.min.y == rect.max.y && rest.max == pass.available_rect.max && rest.min.x
                    == pass.available_rect.min.x,
                Edge::Bottom => rest.max.y == rect.min.y && rest.min == pass.available_rect.min
                    && rest.max.x == pass.available_rect.max.x,
            }
        }),
{
}

/// A cell that clips never clips at its own border: with a margin and a
/// spacing that are not negative, the clip rectangle holds the cell's
/// bounds, and it reaches beyond them on every side where both are positive.
pub proof fn lemma_cell_clip_holds_cell(max_rect: Rect, clip_rect_margin: i32, item_spacing: Vec2)
    requires
        max_rect.in_bounds(),
        0 <= clip_rect_margin,
        0 <= item_spacing.x,
        0 <= item_spacing.y,
    ensures
        max_rect.is_within(cell_clip_rect(max_rect, clip_rect_margin, item_spacing)),
        0 < clip_rect_margin && 2 <= item_spacing.x ==> cell_clip_rect(
            max_rect,
            clip_rect_margin,
            item_spacing,
        ).min.x < max_rect.min.x && max_rect.max.x < cell_clip_rect(
            max_rect,
            clip_rect_margin,
            item_spacing,
        ).max.x,
        0 < clip_rect_margin && 2 <= item_spacing.y ==> cell_clip_rect(
            max_rect,
            clip_rect_margin,
            item_spacing,
        ).min.y < max_rect.min.y && max_rect.max.y < cell_clip_rect(
            max_rect,
            clip_rect_margin,
            item_spacing,
        ).max.y,
{
}

} // verus!
