use gui_core::context::{
    CursorIcon, IdClash, PassContext, PassState, PointerState, Response, Sense, WidgetRect,
};
use gui_core::geom::{Pos2, Rect, Vec2};
use gui_core::id::{Id, IdMap, IdSalt};
use gui_core::layers::{GraphicLayers, LayerId, Order, ShapeIdx};
use gui_core::num::ONE;
use gui_core::panel::PanelState;
use gui_core::shape::Shape;
use gui_core::style::Style;
use gui_core::ui::{Frame, Layout, Margin, Ui, UiBuilder, UiKind};

fn rect(x0: i32, y0: i32, x1: i32, y1: i32) -> Rect {
    Rect { min: Pos2 { x: x0, y: y0 }, max: Pos2 { x: x1, y: y1 } }
}

fn context() -> PassContext {
    let mut ctx = PassContext::new();
    ctx.begin_pass(rect(0, 0, 64000, 38400), IdMap::new());
    ctx
}

#[test]
fn identifiers_are_derived_without_collisions() {
    let id = Id::new(42);
    assert_eq!(id, Id { key: 42, path: 0 });
    assert_eq!(id.with(IdSalt::Resize), Id { key: 42, path: 1 });
    assert_eq!(id.with(IdSalt::Animation), Id { key: 42, path: 2 });
    assert_eq!(id.with(IdSalt::AnimatingPanel), Id { key: 42, path: 3 });
    assert_eq!(id.with(IdSalt::CentralPanel), Id { key: 42, path: 4 });
    assert_eq!(id.with(IdSalt::Auto), Id { key: 42, path: 5 });
    assert_eq!(id.with(IdSalt::AnimatingPanel).with(IdSalt::Resize), Id { key: 42, path: 25 });
    assert_ne!(id.with(IdSalt::Resize).with(IdSalt::Animation), id.with(IdSalt::Animation).with(IdSalt::Resize));
    // A full path starts over, so that the result still differs from what
    // it was derived from.
    let full = Id { key: 1, path: 0x1000_0000_0000_0000 };
    assert_eq!(full.with(IdSalt::Resize), Id { key: 1, path: 1 });
    assert_eq!(Id { key: 1, path: u64::MAX }.with(IdSalt::Auto), Id { key: 1, path: 5 });
    assert_ne!(full.with(IdSalt::AnimatingPanel), full);
    let nearly = Id { key: 1, path: 0x0fff_ffff_ffff_ffff };
    assert_eq!(nearly.with(IdSalt::Auto), Id { key: 1, path: 0x7fff_ffff_ffff_fffd });
}

#[test]
fn tables_answer_with_the_latest_value() {
    let mut map: IdMap<i32> = IdMap::new();
    assert_eq!(map.get(Id::new(1)), None);
    assert_eq!(map.insert(Id::new(1), 10), None);
    assert_eq!(map.insert(Id::new(2), 20), None);
    assert_eq!(map.insert(Id::new(1), 11), Some(10));
    assert_eq!(map.get(Id::new(1)), Some(11));
    assert_eq!(map.get(Id::new(2)), Some(20));
    assert_eq!(map.get(Id::new(3)), None);
    assert_eq!(map.entries.len(), 2);
}

#[test]
fn a_new_context_is_vacant() {
    let ctx = PassContext::new();
    assert_eq!(ctx.pixel_size(), 1);
    assert_eq!(ctx.viewport_id(), 0);
    assert_eq!(ctx.screen_rect(), Rect::nothing());
    assert_eq!(ctx.available_rect(), Rect::nothing());
    assert_eq!(ctx.style(), Style::dark());
    assert!(!ctx.will_discard());
    assert_eq!(ctx.animation_step, ONE);
    assert_eq!(ctx.cursor_icon, CursorIcon::Default);
    assert!(ctx.graphics.layers.is_empty());
}

#[test]
fn begin_pass_resets_what_a_pass_produces_and_keeps_the_rest() {
    let mut ctx = context();
    ctx.store_panel(Id::new(1), PanelState { rect: rect(0, 0, 5, 5) });
    ctx.animate_bool_responsive(Id::new(2), true);
    ctx.set_cursor_icon(CursorIcon::ResizeEast);
    ctx.check_for_id_clash(Id::new(3), rect(0, 0, 1, 1));
    ctx.interact(rect(0, 0, 1, 1), Id::new(3), Sense::click());
    ctx.graphics.add(LayerId::background(), rect(0, 0, 1, 1), Shape::Noop);
    ctx.pass.allocate_left_panel(rect(0, 0, 100, 38400));

    let mut pointer = IdMap::new();
    pointer.insert(Id::new(3), PointerState { rect: rect(0, 0, 1, 1), hovered: true, dragged: false, pos: None });
    ctx.begin_pass(rect(0, 0, 800, 600), pointer);

    assert_eq!(ctx.screen_rect(), rect(0, 0, 800, 600));
    assert_eq!(ctx.available_rect(), rect(0, 0, 800, 600));
    assert_eq!(ctx.pass, PassState::new(rect(0, 0, 800, 600)));
    assert_eq!(ctx.cursor_icon, CursorIcon::Default);
    assert!(ctx.graphics.layers.is_empty());
    assert!(ctx.widget_rects.is_empty());
    assert!(ctx.id_clashes.is_empty());
    assert!(ctx.used_ids.entries.is_empty());
    assert_eq!(ctx.load_panel(Id::new(1)), Some(PanelState { rect: rect(0, 0, 5, 5) }));
    assert_eq!(ctx.animations.get(Id::new(2)), Some(ONE));
    assert!(ctx.read_response(Id::new(3)).unwrap().hovered);
}

#[test]
fn end_pass_hands_out_what_the_pass_produced() {
    let mut ctx = context();
    ctx.set_cursor_icon(CursorIcon::ResizeVertical);
    ctx.interact(rect(0, 0, 1, 1), Id::new(3), Sense::click());
    ctx.check_for_id_clash(Id::new(3), rect(0, 0, 1, 1));
    ctx.check_for_id_clash(Id::new(3), rect(0, 0, 2, 2));
    ctx.graphics.add(LayerId::background(), rect(0, 0, 1, 1), Shape::Noop);
    let out = ctx.end_pass();
    assert_eq!(out.cursor_icon, CursorIcon::ResizeVertical);
    assert_eq!(out.widget_rects, vec![WidgetRect { id: Id::new(3), rect: rect(0, 0, 1, 1), sense: Sense::click() }]);
    assert_eq!(out.id_clashes, vec![IdClash { id: Id::new(3), first: rect(0, 0, 1, 1), second: rect(0, 0, 2, 2) }]);
    assert_eq!(out.graphics.layers.len(), 1);
    assert!(ctx.graphics.layers.is_empty());
    assert!(ctx.widget_rects.is_empty());
    assert!(ctx.id_clashes.is_empty());
    assert_eq!(ctx.screen_rect(), rect(0, 0, 64000, 38400));
}

#[test]
fn take_leaves_a_vacant_context() {
    let mut ctx = context();
    ctx.store_panel(Id::new(1), PanelState { rect: rect(0, 0, 5, 5) });
    let taken = ctx.take();
    assert_eq!(taken.screen_rect(), rect(0, 0, 64000, 38400));
    assert_eq!(taken.load_panel(Id::new(1)), Some(PanelState { rect: rect(0, 0, 5, 5) }));
    assert_eq!(ctx.screen_rect(), Rect::nothing());
    assert_eq!(ctx.load_panel(Id::new(1)), None);
}

#[test]
fn the_budget_shrinks_from_each_edge() {
    let mut pass = PassState::new(rect(0, 0, 1000, 600));
    assert_eq!(pass.used_by_panels, Rect::nothing());
    pass.allocate_left_panel(rect(0, 0, 200, 600));
    assert_eq!(pass.available_rect, rect(200, 0, 1000, 600));
    assert_eq!(pass.unused_rect, rect(200, 0, 1000, 600));
    assert_eq!(pass.used_by_panels, rect(0, 0, 200, 600));
    pass.allocate_right_panel(rect(700, 0, 1000, 600));
    assert_eq!(pass.available_rect, rect(200, 0, 700, 600));
    pass.allocate_top_panel(rect(200, 0, 700, 50));
    assert_eq!(pass.available_rect, rect(200, 50, 700, 600));
    pass.allocate_bottom_panel(rect(200, 580, 700, 600));
    assert_eq!(pass.available_rect, rect(200, 50, 700, 580));
    assert_eq!(pass.unused_rect, rect(200, 50, 700, 580));
    assert_eq!(pass.used_by_panels, rect(0, 0, 1000, 600));
    pass.allocate_central_panel(rect(200, 50, 700, 580));
    assert_eq!(pass.available_rect, rect(200, 50, 700, 580));
    assert_eq!(pass.unused_rect, Rect::nothing());
    assert_eq!(pass.used_by_panels, rect(0, 0, 1000, 600));
}

#[test]
fn an_identifier_used_twice_with_different_rects_is_a_clash() {
    let mut ctx = context();
    ctx.check_for_id_clash(Id::new(1), rect(0, 0, 10, 10));
    ctx.check_for_id_clash(Id::new(2), rect(0, 0, 10, 10));
    assert!(ctx.id_clashes.is_empty());
    // The same rectangle again is no clash.
    ctx.check_for_id_clash(Id::new(1), rect(0, 0, 10, 10));
    assert!(ctx.id_clashes.is_empty());
    ctx.check_for_id_clash(Id::new(1), rect(5, 0, 10, 10));
    assert_eq!(
        ctx.id_clashes,
        vec![IdClash { id: Id::new(1), first: rect(0, 0, 10, 10), second: rect(5, 0, 10, 10) }]
    );
    assert_eq!(ctx.used_ids.get(Id::new(1)), Some(rect(5, 0, 10, 10)));
}

#[test]
fn responses_follow_what_the_host_reported() {
    let mut ctx = PassContext::new();
    let mut pointer = IdMap::new();
    let at = Pos2 { x: 3, y: 4 };
    pointer.insert(Id::new(1), PointerState { rect: rect(0, 0, 9, 9), hovered: true, dragged: true, pos: Some(at) });
    ctx.begin_pass(rect(0, 0, 100, 100), pointer);

    assert_eq!(
        ctx.read_response(Id::new(1)),
        Some(Response { id: Id::new(1), rect: rect(0, 0, 9, 9), hovered: true, dragged: true, interact_pointer_pos: Some(at) })
    );
    assert_eq!(ctx.read_response(Id::new(2)), None);

    let dragging = ctx.interact(rect(1, 1, 5, 5), Id::new(1), Sense::drag());
    assert_eq!(
        dragging,
        Response { id: Id::new(1), rect: rect(1, 1, 5, 5), hovered: true, dragged: true, interact_pointer_pos: Some(at) }
    );
    assert!(dragging.hovered());
    assert!(dragging.dragged());
    assert_eq!(dragging.interact_pointer_pos(), Some(at));
    // A widget that does not sense drags is not dragged.
    assert!(!ctx.interact(rect(1, 1, 5, 5), Id::new(1), Sense::click()).dragged);
    let unknown = ctx.interact(rect(1, 1, 5, 5), Id::new(2), Sense::hover());
    assert_eq!(
        unknown,
        Response { id: Id::new(2), rect: rect(1, 1, 5, 5), hovered: false, dragged: false, interact_pointer_pos: None }
    );
    assert_eq!(ctx.widget_rects.len(), 3);
    assert_eq!(ctx.widget_rects[2], WidgetRect { id: Id::new(2), rect: rect(1, 1, 5, 5), sense: Sense::hover() });
}

#[test]
fn senses() {
    assert!(!Sense::hover().interactive());
    assert!(Sense::click().interactive());
    assert!(Sense::drag().interactive());
    assert_eq!(Sense::drag(), Sense { click: false, drag: true });
}

#[test]
fn animations_move_one_step_towards_their_target() {
    let mut ctx = context();
    ctx.animation_step = ONE / 4;
    let id = Id::new(5);
    // A new animation starts at its target.
    assert_eq!(ctx.animate_bool_responsive(id, false), 0);
    assert_eq!(ctx.animate_bool_responsive(id, true), ONE / 4);
    assert_eq!(ctx.animate_bool_responsive(id, true), ONE / 2);
    assert_eq!(ctx.animate_bool_responsive(id, false), ONE / 4);
    assert_eq!(ctx.animate_bool_responsive(id, true), ONE / 2);
    assert_eq!(ctx.animate_bool_responsive(id, true), 3 * (ONE / 4));
    assert_eq!(ctx.animate_bool_responsive(id, true), ONE);
    assert_eq!(ctx.animate_bool_responsive(id, true), ONE);
    assert_eq!(ctx.animate_bool_responsive(Id::new(6), true), ONE);
    ctx.animation_step = -7;
    assert_eq!(ctx.animate_bool_responsive(id, false), ONE);
    ctx.animation_step = i32::MAX;
    assert_eq!(ctx.animate_bool_responsive(id, false), 0);
    ctx.animations.insert(id, 5 * ONE);
    ctx.animation_step = 1;
    assert_eq!(ctx.animate_bool_responsive(id, false), ONE - 1);
}

#[test]
fn layers_hold_their_own_lists() {
    let mut g = GraphicLayers::new();
    let a = LayerId::new(Order::Middle, Id::new(1));
    let b = LayerId::new(Order::Middle, Id::new(2));
    assert!(g.get(a).is_none());
    assert_eq!(g.add(a, rect(0, 0, 1, 1), Shape::Noop), ShapeIdx(0));
    assert_eq!(g.add(b, rect(0, 0, 1, 1), Shape::Noop), ShapeIdx(0));
    g.extend(a, rect(0, 0, 2, 2), vec![Shape::Noop, Shape::Noop]);
    g.set(b, ShapeIdx(0), rect(0, 0, 3, 3), Shape::Noop);
    assert_eq!(g.get(a).unwrap().len(), 3);
    assert_eq!(g.get(b).unwrap().shapes[0].clip_rect, rect(0, 0, 3, 3));
    // Setting in a layer that was never painted to creates it, empty.
    let c = LayerId::new(Order::Debug, Id::new(1));
    g.set(c, ShapeIdx(0), rect(0, 0, 3, 3), Shape::Noop);
    assert!(g.get(c).unwrap().is_empty());
    assert_eq!(LayerId::background(), LayerId { order: Order::Background, id: Id::new(0) });
}

#[test]
fn a_top_level_region_fills_its_bounds() {
    let ctx = context();
    let ui = Ui::new(&ctx, Id::new(1), UiBuilder::new());
    assert_eq!(ui.max_rect(), rect(0, 0, 64000, 38400));
    assert_eq!(ui.min_rect(), rect(0, 0, 0, 0));
    assert_eq!(ui.cursor(), rect(0, 0, 64000, 38400));
    assert_eq!(ui.clip_rect(), rect(0, 0, 64000, 38400));
    assert_eq!(ui.available_rect_before_wrap(), rect(0, 0, 64000, 38400));
    assert_eq!(ui.painter().layer_id(), LayerId::background());
    assert_eq!(ui.layout, Layout::TopDown);
    assert_eq!(ui.kind, UiKind::Generic);
    assert_eq!(ui.style(), Style::dark());
    assert!(!ui.is_sizing_pass());
    let bounded = Ui::new(
        &ctx,
        Id::new(1),
        UiBuilder::new()
            .max_rect(rect(10, 10, 20, 20))
            .layer_id(LayerId::new(Order::Tooltip, Id::new(3)))
            .layout(Layout::LeftToRight)
            .ui_stack_info(UiKind::Frame)
            .sense(Sense::click())
            .sizing_pass(),
    );
    assert_eq!(bounded.max_rect(), rect(10, 10, 20, 20));
    assert_eq!(bounded.min_rect(), rect(10, 10, 10, 10));
    assert_eq!(bounded.painter().layer_id(), LayerId::new(Order::Tooltip, Id::new(3)));
    assert_eq!(bounded.layout, Layout::LeftToRight);
    assert_eq!(bounded.kind, UiKind::Frame);
    assert_eq!(bounded.sense, Sense::click());
    assert!(bounded.is_sizing_pass());
}

#[test]
fn widgets_follow_each_other_along_the_layout() {
    let ctx = context();
    let mut down = Ui::new(&ctx, Id::new(1), UiBuilder::new().max_rect(rect(100, 100, 1000, 1000)));
    assert_eq!(down.allocate_space(Vec2 { x: 50, y: 20 }), rect(100, 100, 150, 120));
    // The default spacing is 192 units down, 512 across.
    assert_eq!(down.allocate_space(Vec2 { x: 70, y: 10 }), rect(100, 312, 170, 322));
    assert_eq!(down.min_rect(), rect(100, 100, 170, 322));
    assert_eq!(down.cursor(), rect(100, 514, 1000, 1000));
    assert_eq!(down.available_rect_before_wrap(), rect(100, 514, 1000, 1000));

    let mut across = Ui::new(
        &ctx,
        Id::new(1),
        UiBuilder::new().max_rect(rect(100, 100, 1000, 1000)).layout(Layout::LeftToRight),
    );
    assert_eq!(across.allocate_space(Vec2 { x: 50, y: 20 }), rect(100, 100, 150, 120));
    assert_eq!(across.allocate_space(Vec2 { x: 70, y: 10 }), rect(662, 100, 732, 110));
    assert_eq!(across.min_rect(), rect(100, 100, 732, 120));
    // What is available is never negative.
    across.set_cursor(rect(2000, 100, 3000, 1000));
    assert_eq!(across.available_rect_before_wrap(), rect(2000, 100, 2000, 1000));
}

#[test]
fn regions_grow_to_their_least_size() {
    let ctx = context();
    let mut ui = Ui::new(&ctx, Id::new(1), UiBuilder::new().max_rect(rect(100, 100, 200, 200)));
    ui.set_min_width(30);
    assert_eq!(ui.min_rect(), rect(100, 100, 130, 100));
    assert_eq!(ui.max_rect(), rect(100, 100, 200, 200));
    ui.set_min_height(500);
    assert_eq!(ui.min_rect(), rect(100, 100, 130, 600));
    assert_eq!(ui.max_rect(), rect(100, 100, 200, 600));
    ui.set_min_size(Vec2 { x: 10, y: 10 });
    assert_eq!(ui.min_rect(), rect(100, 100, 130, 600));
    ui.expand_to_include_rect(rect(0, 150, 50, 160));
    assert_eq!(ui.min_rect(), rect(0, 100, 130, 600));
    assert_eq!(ui.max_rect(), rect(0, 100, 200, 600));
    ui.set_clip_rect(rect(0, 0, 50, 50));
    ui.shrink_clip_rect(rect(25, -5, 500, 40));
    assert_eq!(ui.clip_rect(), rect(25, 0, 50, 40));
}

#[test]
fn children_inherit_and_are_bounded() {
    let ctx = context();
    let mut parent = Ui::new(&ctx, Id::new(1), UiBuilder::new().max_rect(rect(100, 100, 1000, 1000)));
    parent.allocate_space(Vec2 { x: 50, y: 20 });
    let child = parent.new_child(UiBuilder::new());
    assert_eq!(child.max_rect(), rect(100, 312, 1000, 1000));
    assert_eq!(child.min_rect(), rect(100, 312, 100, 312));
    assert_eq!(child.id, Id::new(1).with(IdSalt::Auto));
    assert_eq!(child.painter(), parent.painter());
    let named = parent.new_child(UiBuilder::new().id_salt(Id::new(9)).max_rect(rect(0, 0, 5, 5)));
    assert_eq!(named.id, Id::new(9));
    assert_eq!(named.max_rect(), rect(0, 0, 5, 5));
}

#[test]
fn allocating_a_rect_rounds_it_and_registers_it() {
    let mut ctx = context();
    ctx.pixel_size = 64;
    let mut ui = Ui::new(&ctx, Id::new(1), UiBuilder::new().max_rect(rect(0, 0, 1000, 1000)));
    let r = ui.allocate_rect(&mut ctx, rect(10, 40, 100, 130), Sense::click());
    assert_eq!(r.rect, rect(0, 64, 128, 128));
    assert_eq!(r.id, Id::new(1).with(IdSalt::Auto));
    assert_eq!(ui.min_rect(), rect(0, 0, 128, 128));
    assert_eq!(ui.cursor(), rect(0, 320, 1000, 1000));
    assert_eq!(
        ctx.widget_rects,
        vec![WidgetRect { id: Id::new(1).with(IdSalt::Auto), rect: rect(0, 64, 128, 128), sense: Sense::click() }]
    );
    let whole = ui.response(&mut ctx);
    assert_eq!(whole.rect, rect(0, 0, 128, 128));
    assert_eq!(whole.id, Id::new(1));
    let other = ui.interact(&mut ctx, rect(1, 2, 3, 4), Id::new(8), Sense::drag());
    assert_eq!(other.rect, rect(1, 2, 3, 4));
    assert_eq!(ctx.widget_rects.len(), 3);
}

#[test]
fn margins() {
    let m = Margin::symmetric(8, 2);
    assert_eq!(m, Margin { left: 8, right: 8, top: 2, bottom: 2 });
    assert_eq!(Margin::same(3), Margin { left: 3, right: 3, top: 3, bottom: 3 });
    assert_eq!(m.sum(), Vec2 { x: 16, y: 4 });
    assert_eq!(m.around(rect(10, 10, 20, 20)), rect(2, 8, 28, 22));
    assert_eq!(m.within(rect(10, 10, 40, 40)), rect(18, 12, 32, 38));
    // Too little room leaves an empty rectangle, not a negative one.
    assert_eq!(m.within(rect(10, 10, 20, 40)), rect(18, 12, 18, 38));
}

#[test]
fn a_frame_keeps_a_slot_and_fills_it_in_when_the_content_is_known() {
    let mut ctx = context();
    let mut ui = Ui::new(&ctx, Id::new(1), UiBuilder::new().max_rect(rect(0, 0, 10000, 10000)));
    let frame = Frame::side_top_panel(ui.style());
    assert_eq!(frame.inner_margin, Margin::symmetric(512, 128));
    assert_eq!(Frame::central_panel(ui.style()).inner_margin, Margin::same(512));
    let prepared = frame.begin(&mut ctx, &ui);
    assert_eq!(prepared.where_to_put_background, ShapeIdx(0));
    assert_eq!(prepared.content_ui.max_rect(), rect(512, 128, 9488, 9872));
    assert_eq!(ctx.graphics.get(LayerId::background()).unwrap().shapes[0].shape, Shape::Noop);

    let mut content = prepared.content_ui;
    content.painter().add(&mut ctx, Shape::Noop);
    content.allocate_space(Vec2 { x: 1000, y: 500 });
    let response = prepared.end(&mut ctx, &mut ui, content);
    assert_eq!(response.rect, rect(0, 0, 2024, 756));
    let list = ctx.graphics.get(LayerId::background()).unwrap();
    assert_eq!(list.len(), 2);
    assert_eq!(
        list.shapes[0].shape,
        Shape::Rect {
            rect: rect(0, 0, 2024, 756),
            corner_radius: 0,
            fill: ui.style().visuals.panel_fill,
            stroke: gui_core::shape::Stroke::none(),
            stroke_kind: gui_core::shape::StrokeKind::Inside,
        }
    );
    assert_eq!(ui.min_rect(), rect(0, 0, 2024, 756));
    assert_eq!(ui.cursor(), rect(0, 948, 10000, 10000));
}
