use gui_core::color::Color32;
use gui_core::context::{PassContext, Sense};
use gui_core::geom::{Pos2, Rect, Vec2};
use gui_core::id::{Id, IdMap, IdSalt};
use gui_core::layers::LayerId;
use gui_core::shape::Shape;
use gui_core::strip::{CellDirection, CellSize, StripLayout, StripLayoutFlags};
use gui_core::style::TextWrapMode;
use gui_core::ui::{Layout, Ui, UiBuilder, UiKind};

fn rect(x0: i32, y0: i32, x1: i32, y1: i32) -> Rect {
    Rect { min: Pos2 { x: x0, y: y0 }, max: Pos2 { x: x1, y: y1 } }
}

fn setup(spacing: Vec2) -> (PassContext, Ui) {
    let mut ctx = PassContext::new();
    ctx.style.spacing.item_spacing = spacing;
    ctx.begin_pass(rect(0, 0, 64000, 38400), IdMap::new());
    let ui = Ui::new(&ctx, Id::new(1), UiBuilder::new().max_rect(rect(1000, 2000, 11000, 12000)));
    (ctx, ui)
}

fn nothing(ctx: PassContext, ui: Ui) -> (PassContext, Ui) {
    (ctx, ui)
}

fn background(ctx: &PassContext) -> Vec<(Rect, String)> {
    match ctx.graphics.get(LayerId::background()) {
        Some(list) => list.shapes.iter().map(|c| (c.clip_rect, format!("{:?}", c.shape))).collect(),
        None => Vec::new(),
    }
}

#[test]
fn a_strip_starts_at_the_upper_left_of_what_is_available() {
    let (_ctx, mut ui) = setup(Vec2 { x: 0, y: 0 });
    ui.allocate_space(Vec2 { x: 10, y: 500 });
    let strip = StripLayout::new(&ui, CellDirection::Horizontal, Layout::TopDown, Sense::hover());
    assert_eq!(strip.rect, rect(1000, 2500, 11000, 12000));
    assert_eq!(strip.cursor, Pos2 { x: 1000, y: 2500 });
    assert_eq!(strip.max, Pos2 { x: 1000, y: 2500 });
}

#[test]
fn cell_rects_follow_the_sizes() {
    let (_ctx, ui) = setup(Vec2 { x: 0, y: 0 });
    let strip = StripLayout::new(&ui, CellDirection::Horizontal, Layout::TopDown, Sense::hover());
    assert_eq!(
        strip.cell_rect(&CellSize::Absolute(100), &CellSize::Absolute(50)),
        rect(1000, 2000, 1100, 2050)
    );
    assert_eq!(
        strip.cell_rect(&CellSize::Remainder, &CellSize::Absolute(50)),
        rect(1000, 2000, 11000, 2050)
    );
    assert_eq!(
        strip.cell_rect(&CellSize::Absolute(100), &CellSize::Remainder),
        rect(1000, 2000, 1100, 12000)
    );
    assert_eq!(strip.cell_rect(&CellSize::Remainder, &CellSize::Remainder), strip.rect);
}

#[test]
fn the_next_line_starts_below_the_tallest_cell() {
    let (mut ctx, mut ui) = setup(Vec2 { x: 0, y: 0 });
    let mut strip = StripLayout::new(&ui, CellDirection::Horizontal, Layout::TopDown, Sense::hover());
    let origin = strip.cursor;
    for (i, height) in [10 * 64, 30 * 64, 15 * 64].iter().enumerate() {
        strip.add(
            &mut ctx,
            &mut ui,
            StripLayoutFlags::default(),
            CellSize::Absolute(100 * 64),
            CellSize::Absolute(*height),
            Id::new(100 + i as u64),
            nothing,
        );
    }
    assert_eq!(strip.cursor, Pos2 { x: origin.x + 300 * 64, y: origin.y });
    strip.end_line(&ui);
    assert_eq!(strip.cursor, Pos2 { x: origin.x, y: origin.y + 30 * 64 });
    assert_ne!(strip.cursor.y, origin.y + 15 * 64);
    assert_ne!(strip.cursor.y, origin.y + 10 * 64);
}

#[test]
fn spacing_separates_cells_and_lines() {
    let (_ctx, ui) = setup(Vec2 { x: 8, y: 3 });
    let mut strip = StripLayout::new(&ui, CellDirection::Horizontal, Layout::TopDown, Sense::hover());
    strip.empty(&ui, CellSize::Absolute(100), CellSize::Absolute(10));
    assert_eq!(strip.cursor, Pos2 { x: 1108, y: 2000 });
    strip.empty(&ui, CellSize::Absolute(100), CellSize::Absolute(30));
    assert_eq!(strip.cursor, Pos2 { x: 1216, y: 2000 });
    assert_eq!(strip.max, Pos2 { x: 1208, y: 2030 });
    strip.end_line(&ui);
    assert_eq!(strip.cursor, Pos2 { x: 1000, y: 2033 });
    strip.empty(&ui, CellSize::Absolute(50), CellSize::Absolute(5));
    assert_eq!(strip.max, Pos2 { x: 1208, y: 2038 });
}

#[test]
fn vertical_strips_go_down_and_their_lines_go_right() {
    let (_ctx, ui) = setup(Vec2 { x: 8, y: 3 });
    let mut strip = StripLayout::new(&ui, CellDirection::Vertical, Layout::TopDown, Sense::hover());
    strip.empty(&ui, CellSize::Absolute(100), CellSize::Absolute(10));
    assert_eq!(strip.cursor, Pos2 { x: 1000, y: 2013 });
    strip.empty(&ui, CellSize::Absolute(40), CellSize::Absolute(10));
    assert_eq!(strip.cursor, Pos2 { x: 1000, y: 2026 });
    strip.end_line(&ui);
    assert_eq!(strip.cursor, Pos2 { x: 1108, y: 2000 });
    let mut rect_set = strip;
    rect_set.set_pos(&ui, rect(0, 0, 5000, 6000));
    assert_eq!(rect_set.max, Pos2 { x: 5000, y: 6000 });
    assert_eq!(rect_set.cursor, Pos2 { x: 1108, y: 6003 });
}

#[test]
fn content_that_overflows_pushes_the_layout_unless_the_cell_clips() {
    let big = |ctx: PassContext, mut ui: Ui| {
        ui.allocate_space(Vec2 { x: 500, y: 20 });
        (ctx, ui)
    };
    let (mut ctx, mut ui) = setup(Vec2 { x: 0, y: 0 });
    let mut strip = StripLayout::new(&ui, CellDirection::Horizontal, Layout::TopDown, Sense::hover());
    let (used, response) = strip.add(
        &mut ctx,
        &mut ui,
        StripLayoutFlags::default(),
        CellSize::Absolute(100),
        CellSize::Absolute(50),
        Id::new(7),
        big,
    );
    assert_eq!(used, rect(1000, 2000, 1500, 2020));
    // The whole cell answers: the content, grown to the size of the cell.
    assert_eq!(response.rect, rect(1000, 2000, 1500, 2050));
    assert_eq!(response.id, Id::new(7));
    assert_eq!(strip.cursor, Pos2 { x: 1500, y: 2000 });
    assert_eq!(strip.max, Pos2 { x: 1500, y: 2050 });
    assert_eq!(ui.min_rect(), rect(1000, 2000, 1500, 2050));

    let clip = StripLayoutFlags { clip: true, ..StripLayoutFlags::default() };
    let (used, _) = strip.add(&mut ctx, &mut ui, clip, CellSize::Absolute(100), CellSize::Absolute(50), Id::new(8), big);
    assert_eq!(used, rect(1500, 2000, 2000, 2020));
    assert_eq!(strip.cursor, Pos2 { x: 1600, y: 2000 });
}

#[test]
fn a_sizing_pass_claims_only_what_the_content_used() {
    let small = |ctx: PassContext, mut ui: Ui| {
        ui.allocate_space(Vec2 { x: 30, y: 20 });
        (ctx, ui)
    };
    let mut ctx = PassContext::new();
    ctx.begin_pass(rect(0, 0, 64000, 38400), IdMap::new());
    let mut ui = Ui::new(&ctx, Id::new(1), UiBuilder::new().max_rect(rect(1000, 2000, 11000, 12000)).sizing_pass());
    let mut strip = StripLayout::new(&ui, CellDirection::Horizontal, Layout::TopDown, Sense::hover());
    let clip = StripLayoutFlags { clip: true, ..StripLayoutFlags::default() };
    let (used, _) = strip.add(&mut ctx, &mut ui, clip, CellSize::Absolute(100), CellSize::Absolute(50), Id::new(8), small);
    assert_eq!(used, rect(1000, 2000, 1030, 2020));
    assert_eq!(strip.max, Pos2 { x: 1030, y: 2020 });
    assert_eq!(strip.cursor.x, 1030 + 512);
}

#[test]
fn backgrounds_are_painted_in_order_over_the_gapless_rect() {
    let (mut ctx, mut ui) = setup(Vec2 { x: 8, y: 4 });
    ctx.pixel_size = 2;
    let style = ui.style();
    let mut strip = StripLayout::new(&ui, CellDirection::Horizontal, Layout::TopDown, Sense::click());
    let flags = StripLayoutFlags { striped: true, selected: true, hovered: true, ..StripLayoutFlags::default() };
    strip.add(&mut ctx, &mut ui, flags, CellSize::Absolute(100), CellSize::Absolute(50), Id::new(7), nothing);
    let gapless = rect(996, 1998, 1104, 2052);
    let clip = rect(1000, 2000, 11000, 12000);
    assert_eq!(
        background(&ctx),
        vec![
            (clip, format!("{:?}", Shape::rect_filled(gapless, 0, style.visuals.faint_bg_color))),
            (clip, format!("{:?}", Shape::rect_filled(gapless, 0, style.visuals.selection.bg_fill))),
        ]
    );

    let flags = StripLayoutFlags { hovered: true, ..StripLayoutFlags::default() };
    strip.add(&mut ctx, &mut ui, flags, CellSize::Absolute(100), CellSize::Absolute(50), Id::new(8), nothing);
    let gapless = rect(1104, 1998, 1212, 2052);
    assert_eq!(
        background(&ctx)[2],
        (clip, format!("{:?}", Shape::rect_filled(gapless, 0, style.visuals.widgets.hovered.bg_fill)))
    );

    // A strip that senses nothing shows no hover.
    let mut passive = StripLayout::new(&ui, CellDirection::Horizontal, Layout::TopDown, Sense::hover());
    passive.add(&mut ctx, &mut ui, flags, CellSize::Absolute(100), CellSize::Absolute(50), Id::new(9), nothing);
    assert_eq!(background(&ctx).len(), 3);
}

#[test]
fn a_cell_region_is_set_up_by_its_flags() {
    let (mut ctx, ui) = setup(Vec2 { x: 8, y: 4 });
    let strip = StripLayout::new(&ui, CellDirection::Horizontal, Layout::LeftToRight, Sense::click());
    let max_rect = rect(1000, 2000, 1100, 2050);

    let plain = strip.cell(&mut ctx, &ui, StripLayoutFlags::default(), max_rect, Id::new(7), nothing);
    assert_eq!(plain.max_rect(), max_rect);
    assert_eq!(plain.id, Id::new(7));
    assert_eq!(plain.kind, UiKind::TableCell);
    assert_eq!(plain.layout, Layout::LeftToRight);
    assert_eq!(plain.sense, Sense::click());
    assert_eq!(plain.clip_rect(), ui.clip_rect());
    assert_eq!(plain.style(), ui.style());
    assert!(!plain.is_sizing_pass());

    let flags = StripLayoutFlags { clip: true, selected: true, overline: true, ..StripLayoutFlags::default() };
    let cell = strip.cell(&mut ctx, &ui, flags, max_rect, Id::new(7), nothing);
    // The margin is the smaller of the style's and half the spacing; the
    // region that the strip lies in clips as well.
    assert_eq!(cell.clip_rect(), rect(1000, 2000, 1104, 2052));
    assert_eq!(cell.style().wrap_mode, Some(TextWrapMode::Truncate));
    assert_eq!(cell.style().visuals.override_text_color, Some(ui.style().visuals.selection.stroke.color));
    let painted = background(&ctx);
    assert_eq!(painted.len(), 1);
    assert_eq!(painted[0].0, rect(1000, 2000, 1104, 2052));
    assert_eq!(
        painted[0].1,
        format!(
            "{:?}",
            Shape::LineSegment {
                points: [Pos2 { x: 1000, y: 2000 }, Pos2 { x: 1100, y: 2000 }],
                stroke: ui.style().visuals.widgets.noninteractive.bg_stroke,
            }
        )
    );

    let mut wide = ui;
    wide.set_clip_rect(rect(0, 0, 64000, 38400));
    let flags = StripLayoutFlags { clip: true, ..StripLayoutFlags::default() };
    let cell = strip.cell(&mut ctx, &wide, flags, max_rect, Id::new(7), nothing);
    assert_eq!(cell.clip_rect(), rect(996, 1998, 1104, 2052));

    let flags = StripLayoutFlags { clip: true, sizing_pass: true, ..StripLayoutFlags::default() };
    let cell = strip.cell(&mut ctx, &ui, flags, max_rect, Id::new(7), nothing);
    assert!(cell.is_sizing_pass());
    assert_eq!(cell.style().wrap_mode, None);
    assert_eq!(Color32::placeholder(), Color32 { r: 64, g: 254, b: 0, a: 128 });
}

#[test]
fn skipping_space_moves_the_cursor_and_takes_the_space() {
    let (mut ctx, mut ui) = setup(Vec2 { x: 0, y: 0 });
    let mut strip = StripLayout::new(&ui, CellDirection::Vertical, Layout::TopDown, Sense::hover());
    let response = strip.skip_space(&mut ctx, &mut ui, Vec2 { x: 0, y: 700 });
    assert_eq!(strip.cursor, Pos2 { x: 1000, y: 2700 });
    assert_eq!(response.rect, rect(1000, 2000, 1000, 2700));
    assert_eq!(ui.min_rect(), rect(1000, 2000, 1000, 2700));
    assert_eq!(ctx.widget_rects[0].id, Id::new(1).with(IdSalt::Auto));
}

#[test]
fn allocate_rect_takes_what_the_strip_used() {
    let (mut ctx, mut ui) = setup(Vec2 { x: 8, y: 3 });
    let mut strip = StripLayout::new(&ui, CellDirection::Horizontal, Layout::TopDown, Sense::hover());
    strip.empty(&ui, CellSize::Absolute(100), CellSize::Absolute(10));
    strip.empty(&ui, CellSize::Absolute(100), CellSize::Absolute(30));
    strip.end_line(&ui);
    strip.empty(&ui, CellSize::Absolute(300), CellSize::Absolute(5));
    let before = strip;
    let response = strip.allocate_rect(&mut ctx, &mut ui);
    assert_eq!(response.rect, rect(1000, 2000, 1300, 2038));
    assert_eq!(strip, before);
    assert_eq!(ui.min_rect(), rect(1000, 2000, 1300, 2038));
    assert_eq!(ui.cursor().min.y, 2041);
}

#[test]
fn default_flags_are_all_off() {
    assert_eq!(
        StripLayoutFlags::default(),
        StripLayoutFlags { clip: false, striped: false, hovered: false, selected: false, overline: false, sizing_pass: false }
    );
}
