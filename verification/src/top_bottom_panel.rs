//! Panels on the top or the bottom edge.

use vstd::prelude::*;
use crate::context::{InnerResponse, PassContext};
use crate::geom::{Rangei, Rect};
use crate::id::{lookup, Id};
use crate::num::{at_least, at_most, max_int, min_int, sat_add, sat_sub, scale_int, INF, ONE};
use crate::panel::{clamp_to_range, Edge, EdgePanel, Shown};
use crate::ui::{Frame, Ui};

verus! {

/// `Top` or `Bottom`.
#[derive(Clone, Copy, Debug, PartialEq, Eq, Structural)]
pub enum TopBottomSide {
    Top,
    Bottom,
}

impl TopBottomSide {
    /// The other side.
    pub open spec fn spec_opposite(self) -> TopBottomSide {
        match self {
            TopBottomSide::Top => TopBottomSide::Bottom,
            TopBottomSide::Bottom => TopBottomSide::Top,
        }
    }

    /// The other side.
    #[verifier::when_used_as_spec(spec_opposite)]
    pub fn opposite(self) -> (s: TopBottomSide)
        ensures
            s == self.spec_opposite(),
    {
        match self {
            TopBottomSide::Top => TopBottomSide::Bottom,
            TopBottomSide::Bottom => TopBottomSide::Top,
        }
    }

    /// The edge that a panel on this side is attached to.
    pub open spec fn spec_edge(self) -> Edge {
        match self {
            TopBottomSide::Top => Edge::Top,
            TopBottomSide::Bottom => Edge::Bottom,
        }
    }

    /// The edge that a panel on this side is attached to.
    #[verifier::when_used_as_spec(spec_edge)]
    pub fn edge(self) -> (e: Edge)
        ensures
            e == self.spec_edge(),
    {
        match self {
            TopBottomSide::Top => Edge::Top,
            TopBottomSide::Bottom => Edge::Bottom,
        }
    }

    /// Cuts `rect` down, or grows it, to `height`, keeping this side of it.
    pub fn set_rect_height(self, rect: &mut Rect, height: i32)
        ensures
            *final(rect) == self.spec_edge().spec_with_extent(*old(rect), height),
    {
        match self {
            TopBottomSide::Top => {
                rect.max.y = sat_add(rect.min.y, height);
            },
            TopBottomSide::Bottom => {
                rect.min.y = sat_sub(rect.max.y, height);
            },
        }
    }

    /// The coordinate of this side of `rect`.
    pub fn side_y(self, rect: Rect) -> (y: i32)
        ensures
            y == self.spec_edge().spec_coord(rect),
    {
        match self {
            TopBottomSide::Top => rect.top(),
            TopBottomSide::Bottom => rect.bottom(),
        }
    }

    /// `-1` for the top, `1` for the bottom.
    pub fn sign(self) -> (r: i32)
        ensures
            r == self.spec_edge().spec_sign(),
    {
        match self {
            TopBottomSide::Top => -1,
            TopBottomSide::Bottom => 1,
        }
    }
}

/// The least height of a top or bottom panel unless configured: 20 points.
pub const DEFAULT_MIN_HEIGHT: i32 = 1280;

/// A panel that covers the top or the bottom of a region or of the screen,
/// over its whole width.
#[must_use]
#[derive(Clone, Copy, Debug, PartialEq, Eq, Structural)]
pub struct TopBottomPanel {
    pub side: TopBottomSide,
    pub id: Id,
    pub frame: Option<Frame>,
    pub resizable: bool,
    pub show_separator_line: bool,
    /// The height of the first pass; where absent, the height of a widget
    /// that can be clicked, and the frame's margin.
    pub default_height: Option<i32>,
    pub height_range: Rangei,
}

impl TopBottomPanel {
    /// A panel on the given side: not resizable, with a separator, never
    /// under 20 points high.
    pub open spec fn spec_new(side: TopBottomSide, id: Id) -> TopBottomPanel {
        TopBottomPanel {
            side,
            id,
            frame: None,
            resizable: false,
            show_separator_line: true,
            default_height: None,
            height_range: Rangei { min: DEFAULT_MIN_HEIGHT, max: INF },
        }
    }

    /// A panel on the given side: not resizable, with a separator, never
    /// under 20 points high.
    #[verifier::when_used_as_spec(spec_new)]
    pub fn new(side: TopBottomSide, id: Id) -> (p: TopBottomPanel)
        ensures
            p == TopBottomPanel::spec_new(side, id),
    {
        TopBottomPanel {
            side,
            id,
            frame: None,
            resizable: false,
            show_separator_line: true,
            default_height: None,
            height_range: Rangei::new(DEFAULT_MIN_HEIGHT, INF),
        }
    }

    /// A panel at the top.
    pub fn top(id: Id) -> (p: TopBottomPanel)
        ensures
            p == TopBottomPanel::spec_new(TopBottomSide::Top, id),
    {
        TopBottomPanel::new(TopBottomSide::Top, id)
    }

    /// A panel at the bottom.
    pub fn bottom(id: Id) -> (p: TopBottomPanel)
        ensures
            p == TopBottomPanel::spec_new(TopBottomSide::Bottom, id),
    {
        TopBottomPanel::new(TopBottomSide::Bottom, id)
    }

    /// Says whether the panel can be resized by dragging its inner edge.
    pub open spec fn spec_resizable(self, resizable: bool) -> TopBottomPanel {
        TopBottomPanel { resizable, ..self }
    }

    /// Says whether the panel can be resized by dragging its inner edge.
    #[verifier::when_used_as_spec(spec_resizable)]
    pub fn resizable(self, resizable: bool) -> (p: TopBottomPanel)
        ensures
            p == self.spec_resizable(resizable),
    {
        TopBottomPanel { resizable, ..self }
    }

    /// Says whether a separator is drawn while the panel is not touched.
    pub open spec fn spec_show_separator_line(self, show_separator_line: bool) -> TopBottomPanel {
        TopBottomPanel { show_separator_line, ..self }
    }

    /// Says whether a separator is drawn while the panel is not touched.
    #[verifier::when_used_as_spec(spec_show_separator_line)]
    pub fn show_separator_line(self, show_separator_line: bool) -> (p: TopBottomPanel)
        ensures
            p == self.spec_show_separator_line(show_separator_line),
    {
        TopBottomPanel { show_separator_line, ..self }
    }

    /// Sets the height of the first pass, margins included. The range is
    /// widened to hold it.
    pub open spec fn spec_default_height(self, default_height: i32) -> TopBottomPanel {
        TopBottomPanel {
            default_height: Some(default_height),
            height_range: Rangei {
                min: min_int(self.height_range.min as int, default_height as int) as i32,
                max: max_int(self.height_range.max as int, default_height as int) as i32,
            },
            ..self
        }
    }

    /// Sets the height of the first pass, margins included. The range is
    /// widened to hold it.
    #[verifier::when_used_as_spec(spec_default_height)]
    pub fn default_height(self, default_height: i32) -> (p: TopBottomPanel)
        ensures
            p == self.spec_default_height(default_height),
    {
        TopBottomPanel {
            default_height: Some(default_height),
            height_range: Rangei::new(
                at_most(self.height_range.min, default_height),
                at_least(self.height_range.max, default_height),
            ),
            ..self
        }
    }

    /// Sets the least height, margins included. The greatest height is
    /// raised to it where it lay below.
    pub open spec fn spec_min_height(self, min_height: i32) -> TopBottomPanel {
        TopBottomPanel {
            height_range: Rangei {
                min: min_height,
                max: max_int(self.height_range.max as int, min_height as int) as i32,
            },
            ..self
        }
    }

    /// Sets the least height, margins included. The greatest height is
    /// raised to it where it lay below.
    #[verifier::when_used_as_spec(spec_min_height)]
    pub fn min_height(self, min_height: i32) -> (p: TopBottomPanel)
        ensures
            p == self.spec_min_height(min_height),
    {
        TopBottomPanel {
            height_range: Rangei::new(min_height, at_least(self.height_range.max, min_height)),
            ..self
        }
    }

    /// Sets the greatest height, margins included. The least height is
    /// lowered to it where it lay above.
    pub open spec fn spec_max_height(self, max_height: i32) -> TopBottomPanel {
        TopBottomPanel {
            height_range: Rangei {
                min: min_int(self.height_range.min as int, max_height as int) as i32,
                max: max_height,
            },
            ..self
        }
    }

    /// Sets the greatest height, margins included. The least height is
    /// lowered to it where it lay above.
    #[verifier::when_used_as_spec(spec_max_height)]
    pub fn max_height(self, max_height: i32) -> (p: TopBottomPanel)
        ensures
            p == self.spec_max_height(max_height),
    {
        TopBottomPanel {
            height_range: Rangei::new(at_most(self.height_range.min, max_height), max_height),
            ..self
        }
    }

    /// Sets the range of heights, margins included. A height of the first
    /// pass that was set is brought into it.
    pub open spec fn spec_height_range(self, height_range: Rangei) -> TopBottomPanel {
        TopBottomPanel {
            default_height: match self.default_height {
                Some(h) => Some(height_range.spec_clamp(h)),
                None => None,
            },
            height_range,
            ..self
        }
    }

    /// Sets the range of heights, margins included. A height of the first
    /// pass that was set is brought into it.
    #[verifier::when_used_as_spec(spec_height_range)]
    pub fn height_range(self, height_range: Rangei) -> (p: TopBottomPanel)
        ensures
            p == self.spec_height_range(height_range),
    {
        TopBottomPanel {
            default_height: match self.default_height {
                Some(h) => Some(clamp_to_range(h, height_range)),
                None => None,
            },
            height_range,
            ..self
        }
    }

    /// Fixes the height, margins included.
    pub open spec fn spec_exact_height(self, height: i32) -> TopBottomPanel {
        TopBottomPanel { default_height: Some(height), height_range: Rangei::spec_point(height), ..self }
    }

    /// Fixes the height, margins included.
    #[verifier::when_used_as_spec(spec_exact_height)]
    pub fn exact_height(self, height: i32) -> (p: TopBottomPanel)
        ensures
            p == self.spec_exact_height(height),
    {
        TopBottomPanel { default_height: Some(height), height_range: Rangei::point(height), ..self }
    }

    /// Sets the frame: background, margins and outline.
    pub open spec fn spec_frame(self, frame: Frame) -> TopBottomPanel {
        TopBottomPanel { frame: Some(frame), ..self }
    }

    /// Sets the frame: background, margins and outline.
    #[verifier::when_used_as_spec(spec_frame)]
    pub fn frame(self, frame: Frame) -> (p: TopBottomPanel)
        ensures
            p == self.spec_frame(frame),
    {
        TopBottomPanel { frame: Some(frame), ..self }
    }

    /// The panel as one on an edge, its height the extent to negotiate.
    pub open spec fn spec_on_edge(self) -> EdgePanel {
        EdgePanel {
            edge: self.side.spec_edge(),
            id: self.id,
            frame: self.frame,
            resizable: self.resizable,
            show_separator_line: self.show_separator_line,
            default_extent: self.default_height,
            extent_range: self.height_range,
        }
    }

    /// The panel as one on an edge, its height the extent to negotiate.
    #[verifier::when_used_as_spec(spec_on_edge)]
    pub fn on_edge(self) -> (p: EdgePanel)
        ensures
            p == self.spec_on_edge(),
    {
        EdgePanel {
            edge: self.side.edge(),
            id: self.id,
            frame: self.frame,
            resizable: self.resizable,
            show_separator_line: self.show_separator_line,
            default_extent: self.default_height,
            extent_range: self.height_range,
        }
    }

    /// Shows the panel inside `ui`: it takes the top or bottom of what is
    /// available there, and the cursor of `ui` is cut back to the rest.
    pub fn show_inside<R, F: FnOnce(PassContext, Ui) -> (PassContext, Ui, R)>(
        self,
        ctx: &mut PassContext,
        ui: &mut Ui,
        add_contents: F,
    ) -> (out: InnerResponse<R>)
        requires
            self.spec_on_edge().callable_inside(old(ctx)@, *old(ui), add_contents),
        ensures
            self.spec_on_edge().shown_inside(
                old(ctx)@,
                *old(ui),
                add_contents,
                Shown { ctx: final(ctx)@, ui: *final(ui), response: out.response },
                out.inner,
            ),
    {
        self.show_inside_dyn(ctx, ui, add_contents)
    }

    /// Shows the panel inside `ui`.
    pub fn show_inside_dyn<R, F: FnOnce(PassContext, Ui) -> (PassContext, Ui, R)>(
        self,
        ctx: &mut PassContext,
        ui: &mut Ui,
        add_contents: F,
    ) -> (out: InnerResponse<R>)
        requires
            self.spec_on_edge().callable_inside(old(ctx)@, *old(ui), add_contents),
        ensures
            self.spec_on_edge().shown_inside(
                old(ctx)@,
                *old(ui),
                add_contents,
                Shown { ctx: final(ctx)@, ui: *final(ui), response: out.response },
                out.inner,
            ),
    {
        self.on_edge().show_inside_dyn(ctx, ui, add_contents)
    }

    /// Shows the panel at the top level: it takes the top or bottom of
    /// what is available of the screen, and the budget shrinks by what it used.
    pub fn show<R, F: FnOnce(PassContext, Ui) -> (PassContext, Ui, R)>(
        self,
        ctx: &mut PassContext,
        add_contents: F,
    ) -> (out: InnerResponse<R>)
        requires
            self.spec_on_edge().callable_inside(
                old(ctx)@,
                self.spec_on_edge().top_ui(old(ctx)@),
                add_contents,
            ),
        ensures
            self.spec_on_edge().shown(old(ctx)@, add_contents, final(ctx)@, out),
    {
        self.show_dyn(ctx, add_contents)
    }

    /// Shows the panel at the top level.
    pub fn show_dyn<R, F: FnOnce(PassContext, Ui) -> (PassContext, Ui, R)>(
        self,
        ctx: &mut PassContext,
        add_contents: F,
    ) -> (out: InnerResponse<R>)
        requires
            self.spec_on_edge().callable_inside(
                old(ctx)@,
                self.spec_on_edge().top_ui(old(ctx)@),
                add_contents,
            ),
        ensures
            self.spec_on_edge().shown(old(ctx)@, add_contents, final(ctx)@, out),
    {
        self.on_edge().show_dyn(ctx, add_contents)
    }

    /// Shows the panel at the top level if it is expanded, and nothing if it
    /// is collapsed, with an animation in between: while that runs, a
    /// stand-in without content is shown whose height grows with the
    /// progress. At progress `0` nothing is shown and nothing is returned;
    /// at `ONE` the panel is shown as `show` shows it.
    pub fn show_animated<R, F: FnOnce(PassContext, Ui) -> (PassContext, Ui, R)>(
        self,
        ctx: &mut PassContext,
        is_expanded: bool,
        add_contents: F,
    ) -> (out: Option<InnerResponse<R>>)
        requires
            self.spec_on_edge().how_expanded(old(ctx)@, is_expanded) >= ONE
                ==> self.spec_on_edge().callable_inside(
                self.spec_on_edge().animated(old(ctx)@, is_expanded),
                self.spec_on_edge().top_ui(self.spec_on_edge().animated(old(ctx)@, is_expanded)),
                add_contents,
            ),
        ensures
            ({
                let panel = self.spec_on_edge();
                let how = panel.how_expanded(old(ctx)@, is_expanded);
                let started = panel.animated(old(ctx)@, is_expanded);
                if how == 0 {
                    out.is_none() && final(ctx)@ == started
                } else if how < ONE {
                    out.is_none() && final(ctx)@ == panel.spec_stand_in(
                        scale_int(panel.spec_resting_extent(started, started.style) as int, how as int) as i32,
                    ).shown_empty(started)
                } else {
                    out.is_some() && panel.shown(started, add_contents, final(ctx)@, out.unwrap())
                }
            }),
            self.spec_on_edge().how_expanded(old(ctx)@, is_expanded) < ONE ==> lookup(final(ctx)@.panels, self.id)
                == lookup(old(ctx)@.panels, self.id),
    {
        self.on_edge().show_animated(ctx, is_expanded, add_contents)
    }

    /// Shows the panel inside `ui` if it is expanded, and nothing if it is
    /// collapsed, with an animation in between.
    pub fn show_animated_inside<R, F: FnOnce(PassContext, Ui) -> (PassContext, Ui, R)>(
        self,
        ctx: &mut PassContext,
        ui: &mut Ui,
        is_expanded: bool,
        add_contents: F,
    ) -> (out: Option<InnerResponse<R>>)
        requires
            self.spec_on_edge().how_expanded(old(ctx)@, is_expanded) >= ONE
                ==> self.spec_on_edge().callable_inside(
                self.spec_on_edge().animated(old(ctx)@, is_expanded),
                *old(ui),
                add_contents,
            ),
        ensures
            ({
                let panel = self.spec_on_edge();
                let how = panel.how_expanded(old(ctx)@, is_expanded);
                let started = panel.animated(old(ctx)@, is_expanded);
                let stand_in = panel.spec_stand_in(
                    scale_int(panel.spec_resting_extent(started, old(ui).style) as int, how as int) as i32,
                );
                if how == 0 {
                    out.is_none() && final(ctx)@ == started && *final(ui) == *old(ui)
                } else if how < ONE {
                    out.is_none() && stand_in.shown_empty_inside(started, *old(ui)).ctx == final(ctx)@
                        && stand_in.shown_empty_inside(started, *old(ui)).ui == *final(ui)
                } else {
                    out.is_some() && panel.shown_inside(
                        started,
                        *old(ui),
                        add_contents,
                        Shown { ctx: final(ctx)@, ui: *final(ui), response: out.unwrap().response },
                        out.unwrap().inner,
                    )
                }
            }),
            self.spec_on_edge().how_expanded(old(ctx)@, is_expanded) < ONE ==> lookup(final(ctx)@.panels, self.id)
                == lookup(old(ctx)@.panels, self.id),
    {
        self.on_edge().show_animated_inside(ctx, ui, is_expanded, add_contents)
    }

    /// Shows the collapsed or the expanded panel at the top level, with an
    /// animation in between, during which a stand-in is shown whose height
    /// lies between the two. The content runs in every case and is told the
    /// progress; what it returns is handed on only from the two real panels.
    pub fn show_animated_between<R, F: FnOnce(PassContext, Ui, i32) -> (PassContext, Ui, R)>(
        ctx: &mut PassContext,
        is_expanded: bool,
        collapsed_panel: TopBottomPanel,
        expanded_panel: TopBottomPanel,
        add_contents: F,
    ) -> (out: Option<InnerResponse<R>>)
        requires
            ({
                let how = expanded_panel.spec_on_edge().how_expanded(old(ctx)@, is_expanded);
                let started = expanded_panel.spec_on_edge().animated(old(ctx)@, is_expanded);
                let panel = EdgePanel::between(
                    collapsed_panel.spec_on_edge(),
                    expanded_panel.spec_on_edge(),
                    started,
                    started.style,
                    how,
                );
                panel.callable_inside_at(started, panel.top_ui(started), add_contents, how)
            }),
        ensures
            ({
                let how = expanded_panel.spec_on_edge().how_expanded(old(ctx)@, is_expanded);
                let started = expanded_panel.spec_on_edge().animated(old(ctx)@, is_expanded);
                let panel = EdgePanel::between(
                    collapsed_panel.spec_on_edge(),
                    expanded_panel.spec_on_edge(),
                    started,
                    started.style,
                    how,
                );
                if 0 < how < ONE {
                    out.is_none() && exists|shown: InnerResponse<R>| #[trigger]
                        panel.shown_at(started, add_contents, how, final(ctx)@, shown)
                } else {
                    out.is_some() && panel.shown_at(started, add_contents, how, final(ctx)@, out.unwrap())
                }
            }),
    {
        EdgePanel::show_animated_between(
            ctx,
            is_expanded,
            collapsed_panel.on_edge(),
            expanded_panel.on_edge(),
            add_contents,
        )
    }

    /// Shows the collapsed or the expanded panel inside `ui`, with an
    /// animation in between, during which a stand-in is shown. The content
    /// runs in every case and is told the progress.
    pub fn show_animated_between_inside<R, F: FnOnce(PassContext, Ui, i32) -> (PassContext, Ui, R)>(
        ctx: &mut PassContext,
        ui: &mut Ui,
        is_expanded: bool,
        collapsed_panel: TopBottomPanel,
        expanded_panel: TopBottomPanel,
        add_contents: F,
    ) -> (out: InnerResponse<R>)
        requires
            ({
                let how = expanded_panel.spec_on_edge().how_expanded(old(ctx)@, is_expanded);
                let started = expanded_panel.spec_on_edge().animated(old(ctx)@, is_expanded);
                let panel = EdgePanel::between(
                    collapsed_panel.spec_on_edge(),
                    expanded_panel.spec_on_edge(),
                    started,
                    old(ui).style,
                    how,
                );
                panel.callable_inside_at(started, *old(ui), add_contents, how)
            }),
        ensures
            ({
                let how = expanded_panel.spec_on_edge().how_expanded(old(ctx)@, is_expanded);
                let started = expanded_panel.spec_on_edge().animated(old(ctx)@, is_expanded);
                let panel = EdgePanel::between(
                    collapsed_panel.spec_on_edge(),
                    expanded_panel.spec_on_edge(),
                    started,
                    old(ui).style,
                    how,
                );
                panel.shown_inside_at(
                    started,
                    *old(ui),
                    add_contents,
                    how,
                    Shown { ctx: final(ctx)@, ui: *final(ui), response: out.response },
                    out.inner,
                )
            }),
    {
        EdgePanel::show_animated_between_inside(
            ctx,
            ui,
            is_expanded,
            collapsed_panel.on_edge(),
            expanded_panel.on_edge(),
            add_contents,
        )
    }
}

} // verus!
