//! Panels on the left or the right edge.

use vstd::prelude::*;
use crate::context::{InnerResponse, PassContext};
use crate::geom::{Rangei, Rect};
use crate::id::{lookup, Id};
use crate::num::{at_least, at_most, max_int, min_int, sat_add, sat_sub, scale_int, INF, ONE};
use crate::panel::{clamp_to_range, Edge, EdgePanel, Shown};
use crate::ui::{Frame, Ui};

verus! {

/// `Left` or `Right`.
#[derive(Clone, Copy, Debug, PartialEq, Eq, Structural)]
pub enum Side {
    Left,
    Right,
}

impl Side {
    /// The other side.
    pub open spec fn spec_opposite(self) -> Side {
        match self {
            Side::Left => Side::Right,
            Side::Right => Side::Left,
        }
    }

    /// The other side.
    #[verifier::when_used_as_spec(spec_opposite)]
    pub fn opposite(self) -> (s: Side)
        ensures
            s == self.spec_opposite(),
    {
        match self {
            Side::Left => Side::Right,
            Side::Right => Side::Left,
        }
    }

    /// The edge that a panel on this side is attached to.
    pub open spec fn spec_edge(self) -> Edge {
        match self {
            Side::Left => Edge::Left,
            Side::Right => Edge::Right,
        }
    }

    /// The edge that a panel on this side is attached to.
    #[verifier::when_used_as_spec(spec_edge)]
    pub fn edge(self) -> (e: Edge)
        ensures
            e == self.spec_edge(),
    {
        match self {
            Side::Left => Edge::Left,
            Side::Right => Edge::Right,
        }
    }

    /// Cuts `rect` down, or grows it, to `width`, keeping this side of it.
    pub fn set_rect_width(self, rect: &mut Rect, width: i32)
        ensures
            *final(rect) == self.spec_edge().spec_with_extent(*old(rect), width),
    {
        match self {
            Side::Left => {
                rect.max.x = sat_add(rect.min.x, width);
            },
            Side::Right => {
                rect.min.x = sat_sub(rect.max.x, width);
            },
        }
    }

    /// The coordinate of this side of `rect`.
    pub fn side_x(self, rect: Rect) -> (x: i32)
        ensures
            x == self.spec_edge().spec_coord(rect),
    {
        match self {
            Side::Left => rect.left(),
            Side::Right => rect.right(),
        }
    }

    /// `-1` for the left, `1` for the right.
    pub fn sign(self) -> (r: i32)
        ensures
            r == self.spec_edge().spec_sign(),
    {
        match self {
            Side::Left => -1,
            Side::Right => 1,
        }
    }
}

/// The width of a side panel in its first pass: 200 points.
pub const DEFAULT_WIDTH: i32 = 12800;

/// The least width of a side panel unless configured: 96 points.
pub const DEFAULT_MIN_WIDTH: i32 = 6144;

/// A panel that covers the left or the right side of a region or of the
/// screen, over its whole height.
#[must_use]
#[derive(Clone, Copy, Debug, PartialEq, Eq, Structural)]
pub struct SidePanel {
    pub side: Side,
    pub id: Id,
    pub frame: Option<Frame>,
    pub resizable: bool,
    pub show_separator_line: bool,
    pub default_width: i32,
    pub width_range: Rangei,
}

impl SidePanel {
    /// A panel on the given side: resizable, with a separator, 200 points
    /// wide at first and never under 96.
    pub open spec fn spec_new(side: Side, id: Id) -> SidePanel {
        SidePanel {
            side,
            id,
            frame: None,
            resizable: true,
            show_separator_line: true,
            default_width: DEFAULT_WIDTH,
            width_range: Rangei { min: DEFAULT_MIN_WIDTH, max: INF },
        }
    }

    /// A panel on the given side: resizable, with a separator, 200 points
    /// wide at first and never under 96.
    #[verifier::when_used_as_spec(spec_new)]
    pub fn new(side: Side, id: Id) -> (p: SidePanel)
        ensures
            p == SidePanel::spec_new(side, id),
    {
        SidePanel {
            side,
            id,
            frame: None,
            resizable: true,
            show_separator_line: true,
            default_width: DEFAULT_WIDTH,
            width_range: Rangei::new(DEFAULT_MIN_WIDTH, INF),
        }
    }

    /// A panel on the left.
    pub fn left(id: Id) -> (p: SidePanel)
        ensures
            p == SidePanel::spec_new(Side::Left, id),
    {
        SidePanel::new(Side::Left, id)
    }

    /// A panel on the right.
    pub fn right(id: Id) -> (p: SidePanel)
        ensures
            p == SidePanel::spec_new(Side::Right, id),
    {
        SidePanel::new(Side::Right, id)
    }

    /// Says whether the panel can be resized by dragging its inner edge.
    pub open spec fn spec_resizable(self, resizable: bool) -> SidePanel {
        SidePanel { resizable, ..self }
    }

    /// Says whether the panel can be resized by dragging its inner edge.
    #[verifier::when_used_as_spec(spec_resizable)]
    pub fn resizable(self, resizable: bool) -> (p: SidePanel)
        ensures
            p == self.spec_resizable(resizable),
    {
        SidePanel { resizable, ..self }
    }

    /// Says whether a separator is drawn while the panel is not touched.
    pub open spec fn spec_show_separator_line(self, show_separator_line: bool) -> SidePanel {
        SidePanel { show_separator_line, ..self }
    }

    /// Says whether a separator is drawn while the panel is not touched.
    #[verifier::when_used_as_spec(spec_show_separator_line)]
    pub fn show_separator_line(self, show_separator_line: bool) -> (p: SidePanel)
        ensures
            p == self.spec_show_separator_line(show_separator_line),
    {
        SidePanel { show_separator_line, ..self }
    }

    /// Sets the width of the first pass, margins included. The range is
    /// widened to hold it.
    pub open spec fn spec_default_width(self, default_width: i32) -> SidePanel {
        SidePanel {
            default_width,
            width_range: Rangei {
                min: min_int(self.width_range.min as int, default_width as int) as i32,
                max: max_int(self.width_range.max as int, default_width as int) as i32,
            },
            ..self
        }
    }

    /// Sets the width of the first pass, margins included. The range is
    /// widened to hold it.
    #[verifier::when_used_as_spec(spec_default_width)]
    pub fn default_width(self, default_width: i32) -> (p: SidePanel)
        ensures
            p == self.spec_default_width(default_width),
    {
        SidePanel {
            default_width,
            width_range: Rangei::new(
                at_most(self.width_range.min, default_width),
                at_least(self.width_range.max, default_width),
            ),
            ..self
        }
    }

    /// Sets the least width, margins included. The greatest width is raised
    /// to it where it lay below.
    pub open spec fn spec_min_width(self, min_width: i32) -> SidePanel {
        SidePanel {
            width_range: Rangei {
                min: min_width,
                max: max_int(self.width_range.max as int, min_width as int) as i32,
            },
            ..self
        }
    }

    /// Sets the least width, margins included. The greatest width is raised
    /// to it where it lay below.
    #[verifier::when_used_as_spec(spec_min_width)]
    pub fn min_width(self, min_width: i32) -> (p: SidePanel)
        ensures
            p == self.spec_min_width(min_width),
    {
        SidePanel {
            width_range: Rangei::new(min_width, at_least(self.width_range.max, min_width)),
            ..self
        }
    }

    /// Sets the greatest width, margins included. The least width is
    /// lowered to it where it lay above.
    pub open spec fn spec_max_width(self, max_width: i32) -> SidePanel {
        SidePanel {
            width_range: Rangei {
                min: min_int(self.width_range.min as int, max_width as int) as i32,
                max: max_width,
            },
            ..self
        }
    }

    /// Sets the greatest width, margins included. The least width is
    /// lowered to it where it lay above.
    #[verifier::when_used_as_spec(spec_max_width)]
    pub fn max_width(self, max_width: i32) -> (p: SidePanel)
        ensures
            p == self.spec_max_width(max_width),
    {
        SidePanel {
            width_range: Rangei::new(at_most(self.width_range.min, max_width), max_width),
            ..self
        }
    }

    /// Sets the range of widths, margins included. The width of the first
    /// pass is brought into it.
    pub open spec fn spec_width_range(self, width_range: Rangei) -> SidePanel {
        SidePanel { default_width: width_range.spec_clamp(self.default_width), width_range, ..self }
    }

    /// Sets the range of widths, margins included. The width of the first
    /// pass is brought into it.
    #[verifier::when_used_as_spec(spec_width_range)]
    pub fn width_range(self, width_range: Rangei) -> (p: SidePanel)
        ensures
            p == self.spec_width_range(width_range),
    {
        SidePanel { default_width: clamp_to_range(self.default_width, width_range), width_range, ..self }
    }

    /// Fixes the width, margins included.
    pub open spec fn spec_exact_width(self, width: i32) -> SidePanel {
        SidePanel { default_width: width, width_range: Rangei::spec_point(width), ..self }
    }

    /// Fixes the width, margins included.
    #[verifier::when_used_as_spec(spec_exact_width)]
    pub fn exact_width(self, width: i32) -> (p: SidePanel)
        ensures
            p == self.spec_exact_width(width),
    {
        SidePanel { default_width: width, width_range: Rangei::point(width), ..self }
    }

    /// Sets the frame: background, margins and outline.
    pub open spec fn spec_frame(self, frame: Frame) -> SidePanel {
        SidePanel { frame: Some(frame), ..self }
    }

    /// Sets the frame: background, margins and outline.
    #[verifier::when_used_as_spec(spec_frame)]
    pub fn frame(self, frame: Frame) -> (p: SidePanel)
        ensures
            p == self.spec_frame(frame),
    {
        SidePanel { frame: Some(frame), ..self }
    }

    /// The panel as one on an edge, its width the extent to negotiate.
    pub open spec fn spec_on_edge(self) -> EdgePanel {
        EdgePanel {
            edge: self.side.spec_edge(),
            id: self.id,
            frame: self.frame,
            resizable: self.resizable,
            show_separator_line: self.show_separator_line,
            default_extent: Some(self.default_width),
            extent_range: self.width_range,
        }
    }

    /// The panel as one on an edge, its width the extent to negotiate.
    #[verifier::when_used_as_spec(spec_on_edge)]
    pub fn on_edge(self) -> (p: EdgePanel)
        ensures
            p == self.spec_on_edge(),
    {
        EdgePanel {
            edge: self.side.edge(),
            id: self.id,
            frame: self.frame,
            resizable: self.resizable,
            show_separator_line: self.show_separator_line,
            default_extent: Some(self.default_width),
            extent_range: self.width_range,
        }
    }

    /// Shows the panel inside `ui`: it takes the side of what is available
    /// there, and the cursor of `ui` is cut back to the rest.
    pub fn show_inside<R, F: FnOnce(PassContext, Ui) -> (PassContext, Ui, R)>(
        self,
        ctx: &mut PassContext,
        ui: &mut Ui,
        add_contents: F,
    ) -> (out: InnerResponse<R>)
        requires
            self.spec_on_edge().callable_inside(old(ctx)@, *old(ui), add_contents),
        ensures
            self.spec_on_edge().shown_inside(
                old(ctx)@,
                *old(ui),
                add_contents,
                Shown { ctx: final(ctx)@, ui: *final(ui), response: out.response },
                out.inner,
            ),
    {
        self.show_inside_dyn(ctx, ui, add_contents)
    }

    /// Shows the panel inside `ui`.
    pub fn show_inside_dyn<R, F: FnOnce(PassContext, Ui) -> (PassContext, Ui, R)>(
        self,
        ctx: &mut PassContext,
        ui: &mut Ui,
        add_contents: F,
    ) -> (out: InnerResponse<R>)
        requires
            self.spec_on_edge().callable_inside(old(ctx)@, *old(ui), add_contents),
        ensures
            self.spec_on_edge().shown_inside(
                old(ctx)@,
                *old(ui),
                add_contents,
                Shown { ctx: final(ctx)@, ui: *final(ui), response: out.response },
                out.inner,
            ),
    {
        self.on_edge().show_inside_dyn(ctx, ui, add_contents)
    }

    /// Shows the panel at the top level: it takes the side of what is
    /// available of the screen, and the budget shrinks by what it used.
    pub fn show<R, F: FnOnce(PassContext, Ui) -> (PassContext, Ui, R)>(
        self,
        ctx: &mut PassContext,
        add_contents: F,
    ) -> (out: InnerResponse<R>)
        requires
            self.spec_on_edge().callable_inside(
                old(ctx)@,
                self.spec_on_edge().top_ui(old(ctx)@),
                add_contents,
            ),
        ensures
            self.spec_on_edge().shown(old(ctx)@, add_contents, final(ctx)@, out),
    {
        self.show_dyn(ctx, add_contents)
    }

    /// Shows the panel at the top level.
    pub fn show_dyn<R, F: FnOnce(PassContext, Ui) -> (PassContext, Ui, R)>(
        self,
        ctx: &mut PassContext,
        add_contents: F,
    ) -> (out: InnerResponse<R>)
        requires
            self.spec_on_edge().callable_inside(
                old(ctx)@,
                self.spec_on_edge().top_ui(old(ctx)@),
                add_contents,
            ),
        ensures
            self.spec_on_edge().shown(old(ctx)@, add_contents, final(ctx)@, out),
    {
        self.on_edge().show_dyn(ctx, add_contents)
    }

    /// Shows the panel at the top level if it is expanded, and nothing if it
    /// is collapsed, with an animation in between: while that runs, a
    /// stand-in without content is shown whose width grows with the
    /// progress. At progress `0` nothing is shown and nothing is returned;
    /// at `ONE` the panel is shown as `show` shows it.
    pub fn show_animated<R, F: FnOnce(PassContext, Ui) -> (PassContext, Ui, R)>(
        self,
        ctx: &mut PassContext,
        is_expanded: bool,
        add_contents: F,
    ) -> (out: Option<InnerResponse<R>>)
        requires
            self.spec_on_edge().how_expanded(old(ctx)@, is_expanded) >= ONE
                ==> self.spec_on_edge().callable_inside(
                self.spec_on_edge().animated(old(ctx)@, is_expanded),
                self.spec_on_edge().top_ui(self.spec_on_edge().animated(old(ctx)@, is_expanded)),
                add_contents,
            ),
        ensures
            ({
                let panel = self.spec_on_edge();
                let how = panel.how_expanded(old(ctx)@, is_expanded);
                let started = panel.animated(old(ctx)@, is_expanded);
                if how == 0 {
                    out.is_none() && final(ctx)@ == started
                } else if how < ONE {
                    out.is_none() && final(ctx)@ == panel.spec_stand_in(
                        scale_int(panel.spec_resting_extent(started, started.style) as int, how as int) as i32,
                    ).shown_empty(started)
                } else {
                    out.is_some() && panel.shown(started, add_contents, final(ctx)@, out.unwrap())
                }
            }),
            self.spec_on_edge().how_expanded(old(ctx)@, is_expanded) < ONE ==> lookup(final(ctx)@.panels, self.id)
                == lookup(old(ctx)@.panels, self.id),
    {
        self.on_edge().show_animated(ctx, is_expanded, add_contents)
    }

    /// Shows the panel inside `ui` if it is expanded, and nothing if it is
    /// collapsed, with an animation in between.
    pub fn show_animated_inside<R, F: FnOnce(PassContext, Ui) -> (PassContext, Ui, R)>(
        self,
        ctx: &mut PassContext,
        ui: &mut Ui,
        is_expanded: bool,
        add_contents: F,
    ) -> (out: Option<InnerResponse<R>>)
        requires
            self.spec_on_edge().how_expanded(old(ctx)@, is_expanded) >= ONE
                ==> self.spec_on_edge().callable_inside(
                self.spec_on_edge().animated(old(ctx)@, is_expanded),
                *old(ui),
                add_contents,
            ),
        ensures
            ({
                let panel = self.spec_on_edge();
                let how = panel.how_expanded(old(ctx)@, is_expanded);
                let started = panel.animated(old(ctx)@, is_expanded);
                let stand_in = panel.spec_stand_in(
                    scale_int(panel.spec_resting_extent(started, old(ui).style) as int, how as int) as i32,
                );
                if how == 0 {
                    out.is_none() && final(ctx)@ == started && *final(ui) == *old(ui)
                } else if how < ONE {
                    out.is_none() && stand_in.shown_empty_inside(started, *old(ui)).ctx == final(ctx)@
                        && stand_in.shown_empty_inside(started, *old(ui)).ui == *final(ui)
                } else {
                    out.is_some() && panel.shown_inside(
                        started,
                        *old(ui),
                        add_contents,
                        Shown { ctx: final(ctx)@, ui: *final(ui), response: out.unwrap().response },
                        out.unwrap().inner,
                    )
                }
            }),
            self.spec_on_edge().how_expanded(old(ctx)@, is_expanded) < ONE ==> lookup(final(ctx)@.panels, self.id)
                == lookup(old(ctx)@.panels, self.id),
    {
        self.on_edge().show_animated_inside(ctx, ui, is_expanded, add_contents)
    }

    /// Shows the collapsed or the expanded panel at the top level, with an
    /// animation in between, during which a stand-in is shown whose width
    /// lies between the two. The content runs in every case and is told the
    /// progress; what it returns is handed on only from the two real panels.
    pub fn show_animated_between<R, F: FnOnce(PassContext, Ui, i32) -> (PassContext, Ui, R)>(
        ctx: &mut PassContext,
        is_expanded: bool,
        collapsed_panel: SidePanel,
        expanded_panel: SidePanel,
        add_contents: F,
    ) -> (out: Option<InnerResponse<R>>)
        requires
            ({
                let how = expanded_panel.spec_on_edge().how_expanded(old(ctx)@, is_expanded);
                let started = expanded_panel.spec_on_edge().animated(old(ctx)@, is_expanded);
                let panel = EdgePanel::between(
                    collapsed_panel.spec_on_edge(),
                    expanded_panel.spec_on_edge(),
                    started,
                    started.style,
                    how,
                );
                panel.callable_inside_at(started, panel.top_ui(started), add_contents, how)
            }),
        ensures
            ({
                let how = expanded_panel.spec_on_edge().how_expanded(old(ctx)@, is_expanded);
                let started = expanded_panel.spec_on_edge().animated(old(ctx)@, is_expanded);
                let panel = EdgePanel::between(
                    collapsed_panel.spec_on_edge(),
                    expanded_panel.spec_on_edge(),
                    started,
                    started.style,
                    how,
                );
                if 0 < how < ONE {
                    out.is_none() && exists|shown: InnerResponse<R>| #[trigger]
                        panel.shown_at(started, add_contents, how, final(ctx)@, shown)
                } else {
                    out.is_some() && panel.shown_at(started, add_contents, how, final(ctx)@, out.unwrap())
                }
            }),
    {
        EdgePanel::show_animated_between(
            ctx,
            is_expanded,
            collapsed_panel.on_edge(),
            expanded_panel.on_edge(),
            add_contents,
        )
    }

    /// Shows the collapsed or the expanded panel inside `ui`, with an
    /// animation in between, during which a stand-in is shown. The content
    /// runs in every case and is told the progress.
    pub fn show_animated_between_inside<R, F: FnOnce(PassContext, Ui, i32) -> (PassContext, Ui, R)>(
        ctx: &mut PassContext,
        ui: &mut Ui,
        is_expanded: bool,
        collapsed_panel: SidePanel,
        expanded_panel: SidePanel,
        add_contents: F,
    ) -> (out: InnerResponse<R>)
        requires
            ({
                let how = expanded_panel.spec_on_edge().how_expanded(old(ctx)@, is_expanded);
                let started = expanded_panel.spec_on_edge().animated(old(ctx)@, is_expanded);
                let panel = EdgePanel::between(
                    collapsed_panel.spec_on_edge(),
                    expanded_panel.spec_on_edge(),
                    started,
                    old(ui).style,
                    how,
                );
                panel.callable_inside_at(started, *old(ui), add_contents, how)
            }),
        ensures
            ({
                let how = expanded_panel.spec_on_edge().how_expanded(old(ctx)@, is_expanded);
                let started = expanded_panel.spec_on_edge().animated(old(ctx)@, is_expanded);
                let panel = EdgePanel::between(
                    collapsed_panel.spec_on_edge(),
                    expanded_panel.spec_on_edge(),
                    started,
                    old(ui).style,
                    how,
                );
                panel.shown_inside_at(
                    started,
                    *old(ui),
                    add_contents,
                    how,
                    Shown { ctx: final(ctx)@, ui: *final(ui), response: out.response },
                    out.inner,
                )
            }),
    {
        EdgePanel::show_animated_between_inside(
            ctx,
            ui,
            is_expanded,
            collapsed_panel.on_edge(),
            expanded_panel.on_edge(),
            add_contents,
        )
    }
}

} // verus!
