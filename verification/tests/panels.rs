use gui_core::central_panel::CentralPanel;
use gui_core::color::Color32;
use gui_core::context::{CursorIcon, PassContext, PointerState, Sense, WidgetRect};
use gui_core::geom::{Pos2, Rangei, Rect, Vec2};
use gui_core::id::{Id, IdMap, IdSalt};
use gui_core::layers::{LayerId, ShapeIdx};
use gui_core::num::{INF, ONE};
use gui_core::panel::{clamp_to_range, Edge, EdgePanel, PanelState};
use gui_core::shape::{Shape, Stroke, StrokeKind};
use gui_core::side_panel::{Side, SidePanel};
use gui_core::top_bottom_panel::{TopBottomPanel, TopBottomSide};
use gui_core::ui::{Frame, Margin, Ui, UiBuilder, UiKind};

fn pt(points: i32) -> i32 {
    points * 64
}

fn rect(x0: i32, y0: i32, x1: i32, y1: i32) -> Rect {
    Rect { min: Pos2 { x: x0, y: y0 }, max: Pos2 { x: x1, y: y1 } }
}

fn context(width: i32, height: i32) -> PassContext {
    let mut ctx = PassContext::new();
    ctx.begin_pass(rect(0, 0, width, height), IdMap::new());
    ctx
}

fn nothing(ctx: PassContext, ui: Ui) -> (PassContext, Ui, ()) {
    (ctx, ui, ())
}

fn fill(ctx: PassContext, mut ui: Ui) -> (PassContext, Ui, i32) {
    let size = ui.available_rect_before_wrap().size();
    ui.allocate_space(size);
    (ctx, ui, 7)
}

fn top_ui(ctx: &PassContext) -> Ui {
    Ui::new(ctx, Id::new(0), UiBuilder::new().max_rect(ctx.available_rect()))
}

fn background(ctx: &PassContext) -> Vec<(Rect, String)> {
    match ctx.graphics.get(LayerId::background()) {
        Some(list) => list.shapes.iter().map(|c| (c.clip_rect, format!("{:?}", c.shape))).collect(),
        None => Vec::new(),
    }
}

#[test]
fn panel_state_round_trips_through_the_context() {
    let mut ctx = context(pt(1000), pt(600));
    assert_eq!(PanelState::load(&ctx, Id::new(1)), None);
    let state = PanelState { rect: rect(0, 0, 100, 50) };
    state.store(&mut ctx, Id::new(1));
    assert_eq!(PanelState::load(&ctx, Id::new(1)), Some(state));
    assert_eq!(PanelState::load(&ctx, Id::new(2)), None);
    assert_eq!(state.size(), Vec2 { x: 100, y: 50 });
    PanelState { rect: rect(0, 0, 1, 1) }.store(&mut ctx, Id::new(1));
    assert_eq!(PanelState::load(&ctx, Id::new(1)).unwrap().size(), Vec2 { x: 1, y: 1 });
}

#[test]
fn sides_and_edges() {
    assert_eq!(Side::Left.opposite(), Side::Right);
    assert_eq!(Side::Right.opposite(), Side::Left);
    assert_eq!(TopBottomSide::Top.opposite(), TopBottomSide::Bottom);
    assert_eq!(TopBottomSide::Bottom.opposite(), TopBottomSide::Top);
    assert_eq!(Side::Left.sign(), -1);
    assert_eq!(Side::Right.sign(), 1);
    assert_eq!(TopBottomSide::Top.sign(), -1);
    assert_eq!(TopBottomSide::Bottom.sign(), 1);
    let r = rect(10, 20, 110, 70);
    assert_eq!(Side::Left.side_x(r), 10);
    assert_eq!(Side::Right.side_x(r), 110);
    assert_eq!(TopBottomSide::Top.side_y(r), 20);
    assert_eq!(TopBottomSide::Bottom.side_y(r), 70);
    let mut a = r;
    Side::Left.set_rect_width(&mut a, 30);
    assert_eq!(a, rect(10, 20, 40, 70));
    let mut a = r;
    Side::Right.set_rect_width(&mut a, 30);
    assert_eq!(a, rect(80, 20, 110, 70));
    let mut a = r;
    TopBottomSide::Top.set_rect_height(&mut a, 30);
    assert_eq!(a, rect(10, 20, 110, 50));
    let mut a = r;
    TopBottomSide::Bottom.set_rect_height(&mut a, 30);
    assert_eq!(a, rect(10, 40, 110, 70));
    assert_eq!(Side::Left.edge(), Edge::Left);
    assert_eq!(TopBottomSide::Bottom.edge(), Edge::Bottom);
    assert_eq!(Edge::Top.opposite(), Edge::Bottom);
    assert_eq!(Edge::Left.extent_of(r), 100);
    assert_eq!(Edge::Bottom.extent_of(r), 50);
    assert_eq!(Edge::Right.coord(r), 110);
    assert_eq!(Edge::Top.along(Pos2 { x: 1, y: 2 }), 2);
    assert_eq!(Edge::Right.with_extent(r, 1), rect(109, 20, 110, 70));
    assert!(Edge::Left.is_side());
    assert!(!Edge::Top.is_side());
    assert_eq!(Edge::Bottom.sign(), 1);
}

#[test]
fn side_panel_defaults_and_builders() {
    let id = Id::new(1);
    let p = SidePanel::left(id);
    assert_eq!(p, SidePanel::new(Side::Left, id));
    assert_eq!(p.side, Side::Left);
    assert_eq!(SidePanel::right(id).side, Side::Right);
    assert!(p.resizable);
    assert!(p.show_separator_line);
    assert_eq!(p.frame, None);
    assert_eq!(p.default_width, pt(200));
    assert_eq!(p.width_range, Rangei::new(pt(96), INF));

    assert!(!p.resizable(false).resizable);
    assert!(!p.show_separator_line(false).show_separator_line);
    // A default below the least width lowers the least width.
    let q = p.default_width(pt(50));
    assert_eq!((q.default_width, q.width_range), (pt(50), Rangei::new(pt(50), INF)));
    let q = p.max_width(pt(300)).default_width(pt(400));
    assert_eq!((q.default_width, q.width_range), (pt(400), Rangei::new(pt(96), pt(400))));
    let q = p.max_width(pt(300)).min_width(pt(350));
    assert_eq!(q.width_range, Rangei::new(pt(350), pt(350)));
    let q = p.max_width(pt(50));
    assert_eq!(q.width_range, Rangei::new(pt(50), pt(50)));
    // Setting the range brings the default into it.
    let q = p.width_range(Rangei::new(pt(10), pt(100)));
    assert_eq!((q.default_width, q.width_range), (pt(100), Rangei::new(pt(10), pt(100))));
    let q = p.exact_width(pt(33));
    assert_eq!((q.default_width, q.width_range), (pt(33), Rangei::point(pt(33))));
    let frame = Frame { inner_margin: Margin::same(1), fill: Color32::transparent(), stroke: Stroke::none(), corner_radius: 3 };
    assert_eq!(p.frame(frame).frame, Some(frame));
    assert_eq!(clamp_to_range(5, Rangei::new(10, 0)), 5);
    assert_eq!(clamp_to_range(50, Rangei::new(10, 0)), 10);
}

#[test]
fn top_bottom_panel_defaults_and_builders() {
    let id = Id::new(1);
    let p = TopBottomPanel::top(id);
    assert_eq!(p, TopBottomPanel::new(TopBottomSide::Top, id));
    assert_eq!(TopBottomPanel::bottom(id).side, TopBottomSide::Bottom);
    assert!(!p.resizable);
    assert!(p.show_separator_line);
    assert_eq!(p.default_height, None);
    assert_eq!(p.height_range, Rangei::new(pt(20), INF));
    assert!(p.resizable(true).resizable);
    assert!(!p.show_separator_line(false).show_separator_line);
    let q = p.default_height(pt(10));
    assert_eq!((q.default_height, q.height_range), (Some(pt(10)), Rangei::new(pt(10), INF)));
    let q = p.min_height(pt(40));
    assert_eq!(q.height_range, Rangei::new(pt(40), INF));
    let q = p.max_height(pt(10));
    assert_eq!(q.height_range, Rangei::new(pt(10), pt(10)));
    // Without a default there is nothing to bring into the range.
    let q = p.height_range(Rangei::new(pt(1), pt(2)));
    assert_eq!((q.default_height, q.height_range), (None, Rangei::new(pt(1), pt(2))));
    let q = p.default_height(pt(10)).height_range(Rangei::new(pt(1), pt(2)));
    assert_eq!((q.default_height, q.height_range), (Some(pt(2)), Rangei::new(pt(1), pt(2))));
    let q = p.exact_height(pt(33));
    assert_eq!((q.default_height, q.height_range), (Some(pt(33)), Rangei::point(pt(33))));
    let frame = Frame::central_panel(gui_core::style::Style::dark());
    assert_eq!(p.frame(frame).frame, Some(frame));
    assert_eq!(p.on_edge().default_extent, None);
    assert_eq!(p.on_edge().edge, Edge::Top);
}

#[test]
fn panel_extent_is_clamped_to_its_range_and_to_what_is_available() {
    let panel = SidePanel::left(Id::new(1)).width_range(Rangei::new(pt(96), pt(400))).default_width(pt(200));
    assert_eq!(panel.width_range, Rangei::new(pt(96), pt(400)));

    let mut narrow = context(pt(50), pt(600));
    let ui = top_ui(&narrow);
    let begun = panel.on_edge().begin_inside(&mut narrow, &ui);
    assert_eq!(begun.negotiated.extent, pt(50));
    assert_eq!(begun.negotiated.panel_rect, rect(0, 0, pt(50), pt(600)));

    let mut wide = context(pt(1000), pt(600));
    let ui = top_ui(&wide);
    let begun = panel.on_edge().begin_inside(&mut wide, &ui);
    assert_eq!(begun.negotiated.extent, pt(200));
    assert_eq!(begun.negotiated.panel_rect, rect(0, 0, pt(200), pt(600)));

    // A stored width beyond the range is brought back into it.
    PanelState { rect: rect(0, 0, pt(900), pt(600)) }.store(&mut wide, Id::new(1));
    let begun = panel.on_edge().begin_inside(&mut wide, &ui);
    assert_eq!(begun.negotiated.extent, pt(400));
    PanelState { rect: rect(0, 0, pt(9), pt(600)) }.store(&mut wide, Id::new(1));
    assert_eq!(panel.on_edge().begin_inside(&mut wide, &ui).negotiated.extent, pt(96));
}

#[test]
fn crossed_ranges_degrade_without_failing() {
    let mut panel = SidePanel::right(Id::new(1));
    panel.width_range = Rangei::new(pt(300), pt(100));
    panel.default_width = pt(500);
    let mut ctx = context(pt(1000), pt(600));
    let out = panel.show(&mut ctx, nothing);
    // The ends are put in order: the default is cut to 300 points.
    assert_eq!(out.response.rect, rect(pt(700), 0, pt(1000), pt(600)));
    assert_eq!(ctx.available_rect(), rect(0, 0, pt(700), pt(600)));
}

#[test]
fn a_left_panel_carves_the_budget() {
    let mut ctx = context(pt(1000), pt(600));
    let out = SidePanel::left(Id::new(1)).show(&mut ctx, fill);
    assert_eq!(out.inner, 7);
    assert_eq!(out.response.rect, rect(0, 0, pt(200), pt(600)));
    assert_eq!(ctx.available_rect(), rect(pt(200), 0, pt(1000), pt(600)));
    assert_eq!(ctx.pass.used_by_panels, rect(0, 0, pt(200), pt(600)));
    assert_eq!(PanelState::load(&ctx, Id::new(1)), Some(PanelState { rect: rect(0, 0, pt(200), pt(600)) }));
    assert!(ctx.id_clashes.is_empty());
}

#[test]
fn an_empty_panel_shrinks_to_its_least_width() {
    let mut ctx = context(pt(1000), pt(600));
    let out = SidePanel::left(Id::new(1)).show(&mut ctx, nothing);
    assert_eq!(out.response.rect, rect(0, 0, pt(96), pt(600)));
    assert_eq!(ctx.available_rect(), rect(pt(96), 0, pt(1000), pt(600)));
}

#[test]
fn a_panel_paints_its_frame_behind_its_content_and_its_separator_last() {
    let mut ctx = context(pt(1000), pt(600));
    let screen = rect(0, 0, pt(1000), pt(600));
    let panel_rect = rect(0, 0, pt(200), pt(600));
    SidePanel::left(Id::new(1)).show(&mut ctx, |mut ctx: PassContext, mut ui: Ui| {
        let size = ui.available_rect_before_wrap().size();
        ui.allocate_space(size);
        ui.painter().circle_filled(&mut ctx, Pos2 { x: 5, y: 5 }, 3, Color32::placeholder());
        (ctx, ui, ())
    });
    let style = gui_core::style::Style::dark();
    let list = ctx.graphics.get(LayerId::background()).unwrap();
    assert_eq!(list.len(), 3);
    assert_eq!(list.shapes[0].clip_rect, panel_rect);
    assert_eq!(
        list.shapes[0].shape,
        Shape::Rect {
            rect: panel_rect,
            corner_radius: 0,
            fill: style.visuals.panel_fill,
            stroke: Stroke::none(),
            stroke_kind: StrokeKind::Inside,
        }
    );
    assert_eq!(list.shapes[1].clip_rect, panel_rect);
    assert_eq!(list.shapes[1].shape, Shape::circle_filled(Pos2 { x: 5, y: 5 }, 3, Color32::placeholder()));
    // The separator lies inside the panel, by half its width.
    assert_eq!(list.shapes[2].clip_rect, screen);
    assert_eq!(
        list.shapes[2].shape,
        Shape::LineSegment {
            points: [Pos2 { x: pt(200) - 32, y: 0 }, Pos2 { x: pt(200) - 32, y: pt(600) }],
            stroke: style.visuals.widgets.noninteractive.bg_stroke,
        }
    );
}

#[test]
fn a_right_panel_has_its_separator_on_its_left() {
    let mut ctx = context(pt(1000), pt(600));
    SidePanel::right(Id::new(1)).resizable(false).show(&mut ctx, fill);
    let style = gui_core::style::Style::dark();
    let list = ctx.graphics.get(LayerId::background()).unwrap();
    assert_eq!(
        list.shapes[1].shape,
        Shape::LineSegment {
            points: [Pos2 { x: pt(800) + 32, y: 0 }, Pos2 { x: pt(800) + 32, y: pt(600) }],
            stroke: style.visuals.widgets.noninteractive.bg_stroke,
        }
    );
    SidePanel::left(Id::new(2)).show_separator_line(false).resizable(false).show(&mut ctx, fill);
    let list = ctx.graphics.get(LayerId::background()).unwrap();
    assert_eq!(
        list.shapes[3].shape,
        Shape::LineSegment {
            points: [Pos2 { x: pt(200), y: 0 }, Pos2 { x: pt(200), y: pt(600) }],
            stroke: Stroke::none(),
        }
    );
}

#[test]
fn left_right_and_central_panels_share_the_width() {
    let mut ctx = context(pt(1000), pt(600));
    let left = SidePanel::left(Id::new(1)).exact_width(pt(200)).show(&mut ctx, nothing);
    let right = SidePanel::right(Id::new(2)).exact_width(pt(300)).show(&mut ctx, nothing);
    assert_eq!(left.response.rect.width(), pt(200));
    assert_eq!(right.response.rect.width(), pt(300));
    assert_eq!(ctx.available_rect().width(), pt(1000) - pt(200) - pt(300));
    let central = CentralPanel::default().show(&mut ctx, |ctx: PassContext, ui: Ui| {
        let width = ui.max_rect().width();
        (ctx, ui, width)
    });
    assert_eq!(central.response.rect, rect(pt(200), 0, pt(700), pt(600)));
    assert_eq!(central.response.rect.width(), pt(500));
    // The content has the margin of the frame less on each side.
    assert_eq!(central.inner, pt(500) - 2 * pt(8));
    assert_eq!(ctx.available_rect(), rect(pt(200), 0, pt(700), pt(600)));
    assert_eq!(ctx.pass.unused_rect, Rect::nothing());
    assert_eq!(ctx.pass.used_by_panels, rect(0, 0, pt(1000), pt(600)));
}

#[test]
fn top_and_bottom_panels_share_the_height() {
    let mut ctx = context(pt(1000), pt(600));
    // Without a default the panel is laid out for the height of a widget,
    // 18 points, and 2 points of margin above and below.
    let ui = top_ui(&ctx);
    let begun = TopBottomPanel::top(Id::new(1)).on_edge().begin_inside(&mut PassContext::new(), &ui);
    assert_eq!(begun.negotiated.extent, pt(22));
    let top = TopBottomPanel::top(Id::new(1)).show(&mut ctx, fill);
    assert_eq!(top.response.rect, rect(0, 0, pt(1000), pt(22)));
    let bottom = TopBottomPanel::bottom(Id::new(2)).exact_height(pt(100)).show(&mut ctx, nothing);
    assert_eq!(bottom.response.rect, rect(0, pt(500), pt(1000), pt(600)));
    assert_eq!(ctx.available_rect(), rect(0, pt(22), pt(1000), pt(500)));
    let list = ctx.graphics.get(LayerId::background()).unwrap();
    let style = gui_core::style::Style::dark();
    assert_eq!(
        list.shapes[1].shape,
        Shape::LineSegment {
            points: [Pos2 { x: 0, y: pt(22) - 32 }, Pos2 { x: pt(1000), y: pt(22) - 32 }],
            stroke: style.visuals.widgets.noninteractive.bg_stroke,
        }
    );
    assert_eq!(
        list.shapes[3].shape,
        Shape::LineSegment {
            points: [Pos2 { x: 0, y: pt(500) + 32 }, Pos2 { x: pt(1000), y: pt(500) + 32 }],
            stroke: style.visuals.widgets.noninteractive.bg_stroke,
        }
    );
}

#[test]
fn panels_inside_a_region_cut_its_cursor_and_leave_the_budget() {
    let mut ctx = context(pt(1000), pt(600));
    let mut ui = Ui::new(&ctx, Id::new(50), UiBuilder::new().max_rect(rect(pt(100), pt(100), pt(900), pt(500))));
    let left = SidePanel::left(Id::new(1)).exact_width(pt(100)).show_inside(&mut ctx, &mut ui, nothing);
    assert_eq!(left.response.rect, rect(pt(100), pt(100), pt(200), pt(500)));
    assert_eq!(ui.available_rect_before_wrap(), rect(pt(200), pt(100), pt(900), pt(500)));
    let right = SidePanel::right(Id::new(2)).exact_width(pt(100)).show_inside(&mut ctx, &mut ui, nothing);
    assert_eq!(right.response.rect, rect(pt(800), pt(100), pt(900), pt(500)));
    let top = TopBottomPanel::top(Id::new(3)).exact_height(pt(50)).show_inside(&mut ctx, &mut ui, nothing);
    assert_eq!(top.response.rect, rect(pt(200), pt(100), pt(800), pt(150)));
    let bottom = TopBottomPanel::bottom(Id::new(4)).exact_height(pt(50)).show_inside(&mut ctx, &mut ui, nothing);
    assert_eq!(bottom.response.rect, rect(pt(200), pt(450), pt(800), pt(500)));
    assert_eq!(ui.available_rect_before_wrap(), rect(pt(200), pt(150), pt(800), pt(450)));
    let before = ui;
    let central = CentralPanel::default().show_inside(&mut ctx, &mut ui, nothing);
    assert_eq!(central.response.rect, rect(pt(200), pt(150), pt(800), pt(450)));
    assert_eq!(ui, before);
    assert_eq!(ctx.available_rect(), rect(0, 0, pt(1000), pt(600)));
    assert_eq!(ctx.pass.used_by_panels, Rect::nothing());
}

#[test]
fn a_panel_region_is_clipped_to_the_panel() {
    let mut ctx = context(pt(1000), pt(600));
    let out = SidePanel::left(Id::new(1)).show(&mut ctx, |ctx: PassContext, ui: Ui| {
        let seen = (ui.clip_rect(), ui.max_rect(), ui.kind, ui.id);
        (ctx, ui, seen)
    });
    assert_eq!(out.inner.0, rect(0, 0, pt(200), pt(600)));
    assert_eq!(out.inner.1, rect(pt(8), pt(2), pt(192), pt(598)));
    assert_eq!(out.inner.2, UiKind::Frame);
}

#[test]
fn a_resizable_panel_registers_its_handle_after_its_content() {
    let mut ctx = context(pt(1000), pt(600));
    let id = Id::new(1);
    SidePanel::left(id).show(&mut ctx, |mut ctx: PassContext, ui: Ui| {
        ctx.interact(rect(1, 1, 2, 2), Id::new(77), Sense::click());
        (ctx, ui, ())
    });
    assert_eq!(ctx.widget_rects.len(), 3);
    assert_eq!(ctx.widget_rects[0].id, Id::new(77));
    assert_eq!(
        ctx.widget_rects[2],
        WidgetRect {
            id: id.with(IdSalt::Resize),
            rect: rect(pt(200) - pt(5), 0, pt(200) + pt(5), pt(600)),
            sense: Sense::drag(),
        }
    );
    assert_eq!(ctx.cursor_icon, CursorIcon::Default);

    let mut fixed = context(pt(1000), pt(600));
    SidePanel::left(id).resizable(false).show(&mut fixed, nothing);
    assert_eq!(fixed.widget_rects.len(), 1);
}

#[test]
fn dragging_the_handle_resizes_in_the_same_pass() {
    let id = Id::new(1);
    let mut ctx = PassContext::new();
    let mut pointer = IdMap::new();
    pointer.insert(
        id.with(IdSalt::Resize),
        PointerState { rect: rect(0, 0, 1, 1), hovered: true, dragged: true, pos: Some(Pos2 { x: pt(300), y: pt(10) }) },
    );
    ctx.begin_pass(rect(0, 0, pt(1000), pt(600)), pointer);
    let out = SidePanel::left(id).show(&mut ctx, fill);
    assert_eq!(out.response.rect, rect(0, 0, pt(300), pt(600)));
    assert_eq!(ctx.cursor_icon, CursorIcon::ResizeHorizontal);
    let style = gui_core::style::Style::dark();
    let list = ctx.graphics.get(LayerId::background()).unwrap();
    assert_eq!(
        list.shapes[1].shape,
        Shape::LineSegment {
            points: [Pos2 { x: pt(300) - 64, y: 0 }, Pos2 { x: pt(300) - 64, y: pt(600) }],
            stroke: style.visuals.widgets.active.fg_stroke,
        }
    );

    // From the right edge the distance counts, whichever side the pointer is on.
    let mut ctx = PassContext::new();
    let mut pointer = IdMap::new();
    pointer.insert(
        id.with(IdSalt::Resize),
        PointerState { rect: rect(0, 0, 1, 1), hovered: false, dragged: true, pos: Some(Pos2 { x: pt(600), y: 0 }) },
    );
    ctx.begin_pass(rect(0, 0, pt(1000), pt(600)), pointer);
    let out = SidePanel::right(id).show(&mut ctx, fill);
    assert_eq!(out.response.rect, rect(pt(600), 0, pt(1000), pt(600)));
}

#[test]
fn the_pointer_shape_tells_which_way_a_panel_can_go() {
    let id = Id::new(1);
    let hovered = |pos: Option<Pos2>, dragged: bool| {
        let mut ctx = PassContext::new();
        let mut pointer = IdMap::new();
        pointer.insert(id.with(IdSalt::Resize), PointerState { rect: rect(0, 0, 1, 1), hovered: true, dragged, pos });
        ctx.begin_pass(rect(0, 0, pt(1000), pt(600)), pointer);
        ctx
    };
    let panel = SidePanel::left(id).width_range(Rangei::new(pt(100), pt(300)));

    let mut ctx = hovered(None, false);
    panel.show(&mut ctx, fill);
    assert_eq!(ctx.cursor_icon, CursorIcon::ResizeHorizontal);

    let mut ctx = hovered(Some(Pos2 { x: pt(10), y: 0 }), true);
    panel.show(&mut ctx, fill);
    assert_eq!(ctx.cursor_icon, CursorIcon::ResizeEast);

    let mut ctx = hovered(Some(Pos2 { x: pt(900), y: 0 }), true);
    panel.show(&mut ctx, fill);
    assert_eq!(ctx.cursor_icon, CursorIcon::ResizeWest);

    let right = SidePanel::right(id).width_range(Rangei::new(pt(100), pt(300)));
    let mut ctx = hovered(Some(Pos2 { x: pt(990), y: 0 }), true);
    right.show(&mut ctx, fill);
    assert_eq!(ctx.cursor_icon, CursorIcon::ResizeWest);
    let mut ctx = hovered(Some(Pos2 { x: pt(10), y: 0 }), true);
    right.show(&mut ctx, fill);
    assert_eq!(ctx.cursor_icon, CursorIcon::ResizeEast);

    let top = TopBottomPanel::top(id).resizable(true).height_range(Rangei::new(pt(100), pt(300)));
    let mut ctx = hovered(Some(Pos2 { x: 0, y: pt(10) }), true);
    top.show(&mut ctx, fill);
    assert_eq!(ctx.cursor_icon, CursorIcon::ResizeSouth);
    let mut ctx = hovered(Some(Pos2 { x: 0, y: pt(200) }), true);
    top.show(&mut ctx, fill);
    assert_eq!(ctx.cursor_icon, CursorIcon::ResizeVertical);
    let mut ctx = hovered(Some(Pos2 { x: 0, y: pt(500) }), true);
    top.show(&mut ctx, fill);
    assert_eq!(ctx.cursor_icon, CursorIcon::ResizeNorth);

    let bottom = TopBottomPanel::bottom(id).resizable(true).height_range(Rangei::new(pt(100), pt(300)));
    let mut ctx = hovered(Some(Pos2 { x: 0, y: pt(590) }), true);
    bottom.show(&mut ctx, fill);
    assert_eq!(ctx.cursor_icon, CursorIcon::ResizeNorth);
    let mut ctx = hovered(Some(Pos2 { x: 0, y: pt(10) }), true);
    bottom.show(&mut ctx, fill);
    assert_eq!(ctx.cursor_icon, CursorIcon::ResizeSouth);

    // A panel that is not resizable does not look at the pointer.
    let mut ctx = hovered(Some(Pos2 { x: pt(900), y: 0 }), true);
    let out = panel.resizable(false).show(&mut ctx, fill);
    assert_eq!(ctx.cursor_icon, CursorIcon::Default);
    assert_eq!(out.response.rect.width(), pt(200));
}

#[test]
fn two_panels_with_one_identifier_clash() {
    let mut ctx = context(pt(1000), pt(600));
    SidePanel::left(Id::new(1)).show(&mut ctx, fill);
    SidePanel::right(Id::new(1)).show(&mut ctx, fill);
    assert_eq!(ctx.id_clashes.len(), 1);
    assert_eq!(ctx.id_clashes[0].id, Id::new(1));
    assert_eq!(ctx.id_clashes[0].first, rect(0, 0, pt(200), pt(600)));
    assert_eq!(ctx.id_clashes[0].second, rect(pt(800), 0, pt(1000), pt(600)));
    // Both were laid out all the same.
    assert_eq!(ctx.available_rect(), rect(pt(200), 0, pt(800), pt(600)));
}

#[test]
fn layout_is_idempotent_across_passes() {
    let id = Id::new(1);
    let mut ctx = PassContext::new();
    ctx.pixel_size = 48;
    let panel = SidePanel::left(id).default_width(pt(200) + 21);
    ctx.begin_pass(rect(7, 0, pt(1000), pt(600)), IdMap::new());
    let first = panel.show(&mut ctx, fill).response.rect;
    let stored = PanelState::load(&ctx, id).unwrap();
    assert_eq!(stored.rect, first);
    ctx.begin_pass(rect(7, 0, pt(1000), pt(600)), IdMap::new());
    let second = panel.show(&mut ctx, fill).response.rect;
    assert_eq!(second, first);
    assert_eq!(second.size(), first.size());
    ctx.begin_pass(rect(7, 0, pt(1000), pt(600)), IdMap::new());
    let third = panel.show(&mut ctx, fill).response.rect;
    assert_eq!(third, first);
    assert_eq!(first, rect(0, 0, 12816, 38400));

    let bar = TopBottomPanel::bottom(Id::new(2)).default_height(pt(30) + 5);
    let mut ctx = PassContext::new();
    ctx.pixel_size = 48;
    ctx.begin_pass(rect(0, 0, pt(1000), pt(600) + 11), IdMap::new());
    let first = bar.show(&mut ctx, fill).response.rect;
    ctx.begin_pass(rect(0, 0, pt(1000), pt(600) + 11), IdMap::new());
    assert_eq!(bar.show(&mut ctx, fill).response.rect, first);
}

#[test]
fn an_animated_panel_at_rest_collapsed_shows_nothing() {
    let mut ctx = context(pt(1000), pt(600));
    let out = SidePanel::left(Id::new(1)).show_animated(&mut ctx, false, fill);
    assert!(out.is_none());
    assert!(ctx.graphics.layers.is_empty());
    assert!(ctx.widget_rects.is_empty());
    assert!(ctx.panels.entries.is_empty());
    assert_eq!(ctx.available_rect(), rect(0, 0, pt(1000), pt(600)));
    assert_eq!(ctx.animations.get(Id::new(1).with(IdSalt::Animation)), Some(0));

    let mut ui = top_ui(&ctx);
    let before = ui;
    let out = TopBottomPanel::top(Id::new(2)).show_animated_inside(&mut ctx, &mut ui, false, fill);
    assert!(out.is_none());
    assert_eq!(ui, before);
    assert!(ctx.graphics.layers.is_empty());
}

#[test]
fn an_animated_panel_at_rest_expanded_is_the_panel_itself() {
    let panel = SidePanel::right(Id::new(1));
    let mut animated = context(pt(1000), pt(600));
    let out = panel.show_animated(&mut animated, true, fill).unwrap();
    let mut plain = context(pt(1000), pt(600));
    let expected = panel.show(&mut plain, fill);
    assert_eq!(out.inner, expected.inner);
    assert_eq!(out.response, expected.response);
    assert_eq!(animated.graphics, plain.graphics);
    assert_eq!(animated.pass, plain.pass);
    assert_eq!(animated.panels, plain.panels);
    assert_eq!(animated.widget_rects, plain.widget_rects);
    assert_eq!(animated.cursor_icon, plain.cursor_icon);
    assert_eq!(animated.used_ids, plain.used_ids);
    assert_eq!(animated.animations.get(Id::new(1).with(IdSalt::Animation)), Some(ONE));

    let bar = TopBottomPanel::top(Id::new(2));
    let mut ui_a = top_ui(&animated);
    let mut ui_p = top_ui(&plain);
    let out = bar.show_animated_inside(&mut animated, &mut ui_a, true, fill).unwrap();
    let expected = bar.show_inside(&mut plain, &mut ui_p, fill);
    assert_eq!(out.response, expected.response);
    assert_eq!(ui_a, ui_p);
    assert_eq!(animated.graphics, plain.graphics);
}

#[test]
fn between_collapsed_and_expanded_a_stand_in_is_shown() {
    let id = Id::new(1);
    let panel = SidePanel::left(id);
    let mut ctx = context(pt(1000), pt(600));
    ctx.animation_step = ONE / 4;
    assert!(panel.show_animated(&mut ctx, true, fill).is_some());
    ctx.begin_pass(rect(0, 0, pt(1000), pt(600)), IdMap::new());
    // Three quarters expanded: a stand-in of three quarters of the width,
    // without the content.
    let out = panel.show_animated(&mut ctx, false, |ctx: PassContext, ui: Ui| -> (PassContext, Ui, i32) {
        panic!("the content of the real panel must not run {:?} {:?}", ctx.pixel_size, ui.id)
    });
    assert!(out.is_none());
    assert_eq!(ctx.available_rect(), rect(pt(150), 0, pt(1000), pt(600)));
    // The real panel's state is kept; the stand-in has its own.
    assert_eq!(PanelState::load(&ctx, id).unwrap().rect, rect(0, 0, pt(200), pt(600)));
    assert_eq!(
        PanelState::load(&ctx, id.with(IdSalt::AnimatingPanel)).unwrap().rect,
        rect(0, 0, pt(150), pt(600))
    );
    // The stand-in has no handle.
    assert_eq!(ctx.widget_rects.len(), 1);
    assert_eq!(background(&ctx).len(), 2);
}

#[test]
fn animating_between_two_panels() {
    let collapsed = SidePanel::left(Id::new(1)).exact_width(pt(40));
    let expanded = SidePanel::left(Id::new(2)).exact_width(pt(240));
    let tell = |ctx: PassContext, ui: Ui, how: i32| (ctx, ui, how);
    let mut ctx = context(pt(1000), pt(600));
    ctx.animation_step = ONE / 4;

    let out = SidePanel::show_animated_between(&mut ctx, false, collapsed, expanded, tell).unwrap();
    assert_eq!((out.inner, out.response.rect.width()), (0, pt(40)));
    assert_eq!(ctx.available_rect().min.x, pt(40));

    ctx.begin_pass(rect(0, 0, pt(1000), pt(600)), IdMap::new());
    let out = SidePanel::show_animated_between(&mut ctx, true, collapsed, expanded, tell);
    assert!(out.is_none());
    // A quarter of the way from the collapsed width, which was stored, to
    // the expanded default.
    assert_eq!(ctx.available_rect().min.x, pt(90));
    assert_eq!(PanelState::load(&ctx, Id::new(2)), None);

    ctx.begin_pass(rect(0, 0, pt(1000), pt(600)), IdMap::new());
    ctx.animation_step = ONE;
    let out = SidePanel::show_animated_between(&mut ctx, true, collapsed, expanded, tell).unwrap();
    assert_eq!((out.inner, out.response.rect.width()), (ONE, pt(240)));

    let mut ui = top_ui(&ctx);
    ctx.animation_step = ONE / 2;
    let out = TopBottomPanel::show_animated_between_inside(
        &mut ctx,
        &mut ui,
        false,
        TopBottomPanel::top(Id::new(3)).exact_height(pt(10)),
        TopBottomPanel::top(Id::new(4)).exact_height(pt(50)),
        tell,
    );
    // New animations start at their target, so this one is collapsed.
    assert_eq!((out.inner, out.response.rect.height()), (0, pt(10)));
    let out = TopBottomPanel::show_animated_between_inside(
        &mut ctx,
        &mut ui,
        true,
        TopBottomPanel::top(Id::new(3)).exact_height(pt(10)),
        TopBottomPanel::top(Id::new(4)).exact_height(pt(50)),
        tell,
    );
    assert_eq!((out.inner, out.response.rect.height()), (ONE / 2, pt(30)));
    let out = TopBottomPanel::show_animated_between(
        &mut ctx,
        true,
        TopBottomPanel::bottom(Id::new(5)).exact_height(pt(10)),
        TopBottomPanel::bottom(Id::new(6)).exact_height(pt(50)),
        tell,
    )
    .unwrap();
    assert_eq!(out.response.rect.height(), pt(50));
}

#[test]
fn the_stand_in_keeps_everything_but_identifier_handle_and_extent() {
    let panel = SidePanel::right(Id::new(1)).show_separator_line(false).on_edge();
    let stand_in = panel.stand_in(pt(10));
    assert_eq!(
        stand_in,
        EdgePanel {
            edge: Edge::Right,
            id: Id::new(1).with(IdSalt::AnimatingPanel),
            frame: None,
            resizable: false,
            show_separator_line: false,
            default_extent: Some(pt(10)),
            extent_range: Rangei::point(pt(10)),
        }
    );
    let ctx = context(pt(1000), pt(600));
    assert_eq!(panel.resting_extent(&ctx, ctx.style()), pt(200));
    assert_eq!(TopBottomPanel::top(Id::new(2)).on_edge().resting_extent(&ctx, ctx.style()), pt(18));
}

#[test]
fn the_central_panel_takes_what_is_left_on_device_pixels() {
    let mut ctx = PassContext::new();
    ctx.pixel_size = 64;
    ctx.viewport_id = 3;
    ctx.begin_pass(rect(10, 10, pt(100) + 40, pt(100) + 20), IdMap::new());
    let out = CentralPanel::default().show(&mut ctx, |ctx: PassContext, ui: Ui| {
        let seen = (ui.max_rect(), ui.min_rect(), ui.clip_rect());
        (ctx, ui, seen)
    });
    let panel_rect = rect(0, 0, pt(101), pt(100));
    assert_eq!(out.response.rect, panel_rect);
    assert_eq!(out.inner.0, rect(pt(8), pt(8), pt(93), pt(92)));
    assert_eq!(out.inner.1, out.inner.0);
    assert_eq!(out.inner.2, panel_rect);
    assert_eq!(ctx.pass.used_by_panels, panel_rect);
    assert_eq!(ctx.pass.unused_rect, Rect::nothing());
    assert_eq!(ctx.available_rect(), rect(10, 10, pt(100) + 40, pt(100) + 20));
    let list = ctx.graphics.get(LayerId::background()).unwrap();
    assert_eq!(list.len(), 1);
    assert_eq!(list.shapes[0].clip_rect, panel_rect);
    // The frame registers itself in the region of the panel, which is a
    // child of the top-level region.
    assert_eq!(
        ctx.widget_rects[0].id,
        Id::new(3).with(IdSalt::CentralPanel).with(IdSalt::Auto).with(IdSalt::Auto)
    );

    let framed = CentralPanel::default().frame(Frame {
        inner_margin: Margin::same(0),
        fill: Color32::transparent(),
        stroke: Stroke::none(),
        corner_radius: 0,
    });
    let out = framed.show(&mut ctx, |ctx: PassContext, ui: Ui| {
        let seen = ui.max_rect();
        (ctx, ui, seen)
    });
    assert_eq!(out.inner, panel_rect);
    assert_eq!(ShapeIdx(1), ShapeIdx(ctx.graphics.get(LayerId::background()).unwrap().len() - 1));
}

#[test]
fn panels_can_be_shown_in_two_steps() {
    let mut ctx = context(pt(1000), pt(600));
    let mut ui = top_ui(&ctx);
    let panel = SidePanel::left(Id::new(1)).exact_width(pt(100)).on_edge();
    let begun = panel.begin_inside(&mut ctx, &ui);
    assert_eq!(begun.content_ui.max_rect(), rect(pt(8), pt(2), pt(92), pt(598)));
    let response = panel.end_inside(&mut ctx, &mut ui, begun, begun.content_ui);
    assert_eq!(response.rect, rect(0, 0, pt(100), pt(600)));
    assert_eq!(ui.available_rect_before_wrap(), rect(pt(100), 0, pt(1000), pt(600)));

    let mut twin = context(pt(1000), pt(600));
    let mut twin_ui = top_ui(&twin);
    let shown = panel.show_empty_inside(&mut twin, &mut twin_ui);
    assert_eq!(shown, response);
    assert_eq!(twin_ui, ui);
    assert_eq!(twin.graphics, ctx.graphics);
    panel.show_empty(&mut twin);
    assert_eq!(twin.available_rect(), rect(pt(100), 0, pt(1000), pt(600)));
}

#[test]
fn panels_without_room_degrade_without_failing() {
    let mut ctx = context(0, 0);
    let out = SidePanel::left(Id::new(1)).show(&mut ctx, fill);
    // The content is still given its least width; the panel itself has none.
    assert_eq!(out.response.rect, rect(0, 0, pt(96), pt(4)));
    let begun = SidePanel::right(Id::new(2)).on_edge().begin_inside(&mut context(0, 0), &top_ui(&context(0, 0)));
    assert_eq!(begun.negotiated.extent, 0);
    assert_eq!(begun.negotiated.panel_rect, rect(0, 0, 0, 0));

    // A screen turned inside out gives a region without room, not a negative one.
    let mut ctx = PassContext::new();
    ctx.begin_pass(rect(100, 100, 0, 0), IdMap::new());
    let ui = top_ui(&ctx);
    assert_eq!(ui.available_rect_before_wrap(), rect(100, 100, 100, 100));
    let begun = TopBottomPanel::bottom(Id::new(3)).on_edge().begin_inside(&mut ctx, &ui);
    assert_eq!(begun.negotiated.extent, 0);
    CentralPanel::default().show(&mut ctx, nothing);

    // Unbounded extents saturate.
    let mut ctx = PassContext::new();
    ctx.begin_pass(rect(i32::MIN, i32::MIN, i32::MAX, i32::MAX), IdMap::new());
    let ui = top_ui(&ctx);
    let begun = SidePanel::left(Id::new(4)).default_width(INF).on_edge().begin_inside(&mut ctx, &ui);
    assert_eq!(begun.negotiated.extent, INF);
    assert_eq!(begun.negotiated.panel_rect, rect(i32::MIN, i32::MIN, -1, i32::MAX));
    SidePanel::right(Id::new(5)).show(&mut ctx, fill);
    TopBottomPanel::top(Id::new(6)).show(&mut ctx, fill);
}

#[test]
fn the_stand_in_of_a_panel_with_a_full_identifier_path_keeps_its_own_state() {
    let id = Id { key: 9, path: u64::MAX };
    let panel = SidePanel::left(id);
    let mut ctx = context(pt(1000), pt(600));
    ctx.animation_step = ONE / 4;
    assert!(panel.show_animated(&mut ctx, true, fill).is_some());
    let kept = PanelState::load(&ctx, id);
    assert_eq!(kept, Some(PanelState { rect: rect(0, 0, pt(200), pt(600)) }));
    ctx.begin_pass(rect(0, 0, pt(1000), pt(600)), IdMap::new());
    assert!(panel.show_animated(&mut ctx, false, fill).is_none());
    assert_eq!(PanelState::load(&ctx, id), kept);
    assert_eq!(
        PanelState::load(&ctx, Id { key: 9, path: 3 }),
        Some(PanelState { rect: rect(0, 0, pt(150), pt(600)) })
    );
}

#[test]
fn the_central_region_lies_between_the_side_panels_on_any_pixel_grid() {
    let mut ctx = PassContext::new();
    ctx.pixel_size = 48;
    ctx.begin_pass(rect(5, 3, pt(1000) + 7, pt(600) + 11), IdMap::new());
    let left = SidePanel::left(Id::new(1)).default_width(pt(200) + 21).show(&mut ctx, fill);
    let right = SidePanel::right(Id::new(2)).default_width(pt(300) + 5).show(&mut ctx, fill);
    assert_eq!(ctx.available_rect().min.x, left.response.rect.max.x);
    assert_eq!(ctx.available_rect().max.x, right.response.rect.min.x);
    let frame = Frame { inner_margin: Margin::same(0), fill: Color32::transparent(), stroke: Stroke::none(), corner_radius: 0 };
    let central = CentralPanel::default().frame(frame).show(&mut ctx, |ctx: PassContext, ui: Ui| {
        let region = ui.max_rect();
        (ctx, ui, region)
    });
    // The panels lie on device pixels, so the region begins and ends exactly
    // where they end and begin, and overlaps neither.
    assert_eq!(central.inner.min.x, left.response.rect.max.x);
    assert_eq!(central.inner.max.x, right.response.rect.min.x);
    assert_eq!(left.response.rect.max.x % 48, 0);
    assert_eq!(right.response.rect.min.x % 48, 0);
    assert_eq!(left.response.rect, rect(0, 0, 12816, 38400));
    assert_eq!(right.response.rect, rect(44784, 0, 63984, 38400));
    assert_eq!(central.inner.width(), 44784 - 12816);
}
