//! The panel that takes what the others left.

use vstd::prelude::*;
use crate::context::{InnerResponse, PassContext, PassView, Response};
use crate::id::{Id, IdSalt};
use crate::layers::LayerId;
use crate::ui::{Frame, Layout, Prepared, Ui, UiBuilder, UiKind};

verus! {

/// A panel that covers whatever is left of a region, or of the screen, after
/// the other panels. It is shown last.
#[must_use]
#[derive(Clone, Copy, Debug, PartialEq, Eq, Structural)]
pub struct CentralPanel {
    pub frame: Option<Frame>,
}

/// What a central panel leaves behind.
pub struct CentralShown {
    pub ctx: PassView,
    pub response: Response,
}

impl Default for CentralPanel {
    fn default() -> (p: CentralPanel)
        ensures
            p == (CentralPanel { frame: None }),
    {
        CentralPanel { frame: None }
    }
}

impl CentralPanel {
    /// Sets the frame: background, margins and outline.
    pub open spec fn spec_frame(self, frame: Frame) -> CentralPanel {
        CentralPanel { frame: Some(frame) }
    }

    /// Sets the frame: background, margins and outline.
    #[verifier::when_used_as_spec(spec_frame)]
    pub fn frame(self, frame: Frame) -> (p: CentralPanel)
        ensures
            p == self.spec_frame(frame),
    {
        CentralPanel { frame: Some(frame) }
    }

    /// The frame drawn around the content.
    pub open spec fn frame_in(self, ui: Ui) -> Frame {
        match self.frame {
            Some(f) => f,
            None => Frame::spec_central_panel(ui.style),
        }
    }

    /// The region of the panel: all that is available in `ui`, and clipped
    /// by it, so that content which overflows is not shown.
    pub open spec fn panel_ui(self, ui: Ui) -> Ui {
        ui.spec_new_child(
            UiBuilder::spec_new().spec_ui_stack_info(UiKind::CentralPanel).spec_max_rect(
                ui.spec_available_rect_before_wrap(),
            ).spec_layout(Layout::TopDown),
        ).spec_with_clip_rect(ui.spec_available_rect_before_wrap())
    }

    /// The frame as it waits for the content.
    pub open spec fn prepared(self, ctx: PassView, ui: Ui) -> Prepared {
        Prepared {
            frame: self.frame_in(ui),
            where_to_put_background: self.panel_ui(ui).painter.next_idx(ctx),
            content_ui: self.frame_in(ui).content_ui(self.panel_ui(ui)),
        }
    }

    /// The region that the content is given: inside the frame, and already
    /// as large as its bounds, so that the frame fills the panel.
    pub open spec fn content_ui(self, ui: Ui) -> Ui {
        let inner = self.frame_in(ui).content_ui(self.panel_ui(ui));
        inner.spec_expand_to_include_rect(inner.max_rect)
    }

    /// The state in which the content starts: a slot is kept for the
    /// frame's background.
    pub open spec fn before_content(self, ctx: PassView, ui: Ui) -> PassView {
        self.frame_in(ui).spec_begin(ctx, self.panel_ui(ui))
    }

    /// What the panel leaves behind, given the state `after` and the region
    /// `content` in which the content ended: the frame is closed around
    /// what the content used. The region that the panel is shown in stays
    /// as it is.
    pub open spec fn after_content(self, ctx: PassView, ui: Ui, after: PassView, content: Ui) -> CentralShown {
        CentralShown {
            ctx: self.prepared(ctx, ui).spec_end(after, self.panel_ui(ui), content),
            response: self.prepared(ctx, ui).response(after, self.panel_ui(ui), content),
        }
    }

    /// Whether `add_contents` may be called on the content region of this
    /// panel shown in `ui`.
    pub open spec fn callable_inside<R, F: FnOnce(PassContext, Ui) -> (PassContext, Ui, R)>(
        self,
        ctx: PassView,
        ui: Ui,
        add_contents: F,
    ) -> bool {
        forall|before: PassContext|
            before@ == self.before_content(ctx, ui) ==> add_contents.requires((before, self.content_ui(ui)))
    }

    /// Whether `shown` and `inner` are what showing the panel in `ui`
    /// leaves behind and returns, for some run of `add_contents` on the
    /// content region.
    pub open spec fn shown_inside<R, F: FnOnce(PassContext, Ui) -> (PassContext, Ui, R)>(
        self,
        ctx: PassView,
        ui: Ui,
        add_contents: F,
        shown: CentralShown,
        inner: R,
    ) -> bool {
        exists|before: PassContext, after: PassContext, content: Ui|
            before@ == self.before_content(ctx, ui) && #[trigger] add_contents.ensures(
                (before, self.content_ui(ui)),
                (after, content, inner),
            ) && shown == self.after_content(ctx, ui, after@, content)
    }

    /// Shows the panel inside `ui`: it takes all that is available there.
    pub fn show_inside<R, F: FnOnce(PassContext, Ui) -> (PassContext, Ui, R)>(
        self,
        ctx: &mut PassContext,
        ui: &mut Ui,
        add_contents: F,
    ) -> (out: InnerResponse<R>)
        requires
            self.callable_inside(old(ctx)@, *old(ui), add_contents),
        ensures
            self.shown_inside(
                old(ctx)@,
                *old(ui),
                add_contents,
                CentralShown { ctx: final(ctx)@, response: out.response },
                out.inner,
            ),
            *final(ui) == *old(ui),
    {
        self.show_inside_dyn(ctx, ui, add_contents)
    }

    /// Shows the panel inside `ui`.
    pub fn show_inside_dyn<R, F: FnOnce(PassContext, Ui) -> (PassContext, Ui, R)>(
        self,
        ctx: &mut PassContext,
        ui: &mut Ui,
        add_contents: F,
    ) -> (out: InnerResponse<R>)
        requires
            self.callable_inside(old(ctx)@, *old(ui), add_contents),
        ensures
            self.shown_inside(
                old(ctx)@,
                *old(ui),
                add_contents,
                CentralShown { ctx: final(ctx)@, response: out.response },
                out.inner,
            ),
            *final(ui) == *old(ui),
    {
        let panel_rect = ui.available_rect_before_wrap();
        let mut panel_ui = ui.new_child(
            UiBuilder::new().ui_stack_info(UiKind::CentralPanel).max_rect(panel_rect).layout(
                Layout::TopDown,
            ),
        );
        panel_ui.set_clip_rect(panel_rect);
        let frame = match self.frame {
            Some(f) => f,
            None => Frame::central_panel(ui.style()),
        };
        let prepared = frame.begin(ctx, &panel_ui);
        let mut content_ui = prepared.content_ui;
        content_ui.expand_to_include_rect(content_ui.max_rect());
        let before = ctx.take();
        let ghost before_g = before;
        let (after, content, inner) = add_contents(before, content_ui);
        let ghost after_g = after;
        *ctx = after;
        let response = prepared.end(ctx, &mut panel_ui, content);
        proof {
            assert(add_contents.ensures((before_g, self.content_ui(*old(ui))), (after_g, content, inner)));
        }
        InnerResponse { inner, response }
    }

    /// The identifier of the top-level central panel of a viewport.
    pub open spec fn top_id(ctx: PassView) -> Id {
        Id::spec_new(ctx.viewport_id).spec_with(IdSalt::CentralPanel)
    }

    /// The region of the top-level central panel: what is available of the
    /// screen, on device pixels, on the background layer, clipped by the
    /// screen alone.
    pub open spec fn top_ui(ctx: PassView) -> Ui {
        Ui::spec_new(
            ctx,
            CentralPanel::top_id(ctx),
            UiBuilder::spec_new().spec_layer_id(LayerId::spec_background()).spec_max_rect(
                ctx.pass.available_rect.spec_round_to_grid(ctx.pixel_size),
            ),
        ).spec_with_clip_rect(ctx.screen_rect)
    }

    /// Whether `after` and `out` are what showing the panel at the top
    /// level leaves behind and returns: it is shown inside the region of
    /// what is available, and what it used is recorded in the budget.
    pub open spec fn shown<R, F: FnOnce(PassContext, Ui) -> (PassContext, Ui, R)>(
        self,
        ctx: PassView,
        add_contents: F,
        after: PassView,
        out: InnerResponse<R>,
    ) -> bool {
        exists|inside: CentralShown| #[trigger]
            self.shown_inside(ctx, CentralPanel::top_ui(ctx), add_contents, inside, out.inner)
                && inside.response == out.response && after == inside.ctx.with_pass(
                inside.ctx.pass.spec_allocate_central_panel(out.response.rect),
            )
    }

    /// Shows the panel at the top level: it takes all that is left of the
    /// screen.
    pub fn show<R, F: FnOnce(PassContext, Ui) -> (PassContext, Ui, R)>(
        self,
        ctx: &mut PassContext,
        add_contents: F,
    ) -> (out: InnerResponse<R>)
        requires
            self.callable_inside(old(ctx)@, CentralPanel::top_ui(old(ctx)@), add_contents),
        ensures
            self.shown(old(ctx)@, add_contents, final(ctx)@, out),
    {
        self.show_dyn(ctx, add_contents)
    }

    /// Shows the panel at the top level.
    pub fn show_dyn<R, F: FnOnce(PassContext, Ui) -> (PassContext, Ui, R)>(
        self,
        ctx: &mut PassContext,
        add_contents: F,
    ) -> (out: InnerResponse<R>)
        requires
            self.callable_inside(old(ctx)@, CentralPanel::top_ui(old(ctx)@), add_contents),
        ensures
            self.shown(old(ctx)@, add_contents, final(ctx)@, out),
    {
        let id = Id::new(ctx.viewport_id()).with(IdSalt::CentralPanel);
        let mut panel_ui = Ui::new(
            ctx,
            id,
            UiBuilder::new().layer_id(LayerId::background()).max_rect(
                ctx.available_rect().round_to_grid(ctx.pixel_size()),
            ),
        );
        panel_ui.set_clip_rect(ctx.screen_rect());
        let inner_response = self.show_inside_dyn(ctx, &mut panel_ui, add_contents);
        let ghost inside = CentralShown { ctx: ctx@, response: inner_response.response };
        // Only what was used is recorded, so that the host can shrink its
        // window to fit.
        ctx.pass.allocate_central_panel(inner_response.response.rect);
        proof {
            assert(self.shown_inside(
                old(ctx)@,
                CentralPanel::top_ui(old(ctx)@),
                add_contents,
                inside,
                inner_response.inner,
            ));
        }
        inner_response
    }
}

} // verus!
