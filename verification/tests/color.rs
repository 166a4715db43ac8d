use gui_core::color::Color32;
use gui_core::num::ONE;
use gui_core::shape::{ColorAdjust, Galley, GalleyColors, Shape, Stroke, StrokeKind};
use gui_core::geom::{Pos2, Rect, Vec2};

fn rgba(r: u8, g: u8, b: u8, a: u8) -> Color32 {
    Color32 { r, g, b, a }
}

/// The three branches of the tint, written out again, to hold the library's
/// result against.
fn expected_tint(c: Color32, t: Color32) -> Color32 {
    if c.a == 0 {
        rgba(c.r / 2, c.g / 2, c.b / 2, 0)
    } else if c.a < 170 {
        let div = ((510 / c.a as u32) % 256) as u8;
        rgba(c.r / 2 + t.r / div, c.g / 2 + t.g / div, c.b / 2 + t.b / div, c.a / 2)
    } else {
        rgba(c.r / 2 + t.r / 2, c.g / 2 + t.g / 2, c.b / 2 + t.b / 2, c.a)
    }
}

/// A channel times an opacity, written out again, to hold the library's
/// result against.
fn expected_dimmed(c: Color32, opacity: i32) -> Color32 {
    let by = opacity.clamp(0, ONE) as u32;
    let m = |x: u8| ((x as u32 * by + 32768) / 65536) as u8;
    rgba(m(c.r), m(c.g), m(c.b), m(c.a))
}

#[test]
fn the_sentinels_have_their_documented_values() {
    assert_eq!(Color32::placeholder(), rgba(64, 254, 0, 128));
    assert_eq!(Color32::transparent(), rgba(0, 0, 0, 0));
    assert_eq!(epaint::Color32::PLACEHOLDER.to_array(), [64, 254, 0, 128]);
    assert_eq!(epaint::Color32::TRANSPARENT.to_array(), [0, 0, 0, 0]);
}

#[test]
fn simple_constructors_agree_with_the_colour_crate() {
    assert_eq!(Color32::from_black_alpha(150), rgba(0, 0, 0, 150));
    assert_eq!(Color32::from_white_alpha(150), rgba(150, 150, 150, 150));
    assert_eq!(epaint::Color32::from_black_alpha(150).to_array(), [0, 0, 0, 150]);
    assert_eq!(epaint::Color32::from_white_alpha(150).to_array(), [150, 150, 150, 150]);
    assert_eq!(Color32::from_rgba_premultiplied(1, 2, 3, 4), rgba(1, 2, 3, 4));
    assert!(rgba(9, 9, 9, 0).is_additive());
    assert!(!rgba(9, 9, 9, 1).is_additive());
    assert_eq!(rgba(9, 8, 7, 200).additive(), rgba(9, 8, 7, 0));
}

#[test]
fn tint_of_an_opaque_colour_averages() {
    assert_eq!(
        rgba(100, 50, 200, 255).tint_towards(rgba(0, 0, 0, 255)),
        rgba(50, 25, 100, 255)
    );
    assert_eq!(
        rgba(100, 50, 200, 255).tint_towards(rgba(255, 255, 255, 255)),
        rgba(177, 152, 227, 255)
    );
}

#[test]
fn tint_of_a_translucent_colour_halves_alpha() {
    assert_eq!(
        rgba(100, 50, 200, 100).tint_towards(rgba(30, 60, 90, 255)),
        rgba(56, 37, 118, 50)
    );
    // With alpha one the divisor wraps around to 254.
    assert_eq!(rgba(1, 1, 1, 1).tint_towards(rgba(254, 253, 255, 255)), rgba(1, 0, 1, 0));
}

#[test]
fn tint_of_an_additive_colour_halves_it() {
    assert_eq!(rgba(100, 50, 200, 0).tint_towards(rgba(255, 255, 255, 255)), rgba(50, 25, 100, 0));
}

#[test]
fn tint_matches_its_statement_on_a_sweep() {
    let mut a: u32 = 0;
    while a < 256 {
        let mut v: u32 = 0;
        while v < 256 {
            let c = rgba(v as u8, (255 - v) as u8, (v / 3) as u8, a as u8);
            let t = rgba((v * 7 % 256) as u8, (a * 3 % 256) as u8, 255, 255);
            if c != Color32::placeholder() {
                assert_eq!(c.tint_towards(t), expected_tint(c, t));
            }
            v += 5;
        }
        a += 1;
    }
}

#[test]
fn opacity_rounds_each_channel_to_the_nearest_whole() {
    // 254 times 6554 / 65536 is 25.4; with the half added it is still below 26.
    assert_eq!(rgba(254, 254, 254, 254).with_opacity(6554), rgba(25, 25, 25, 25));
    assert_eq!(rgba(255, 10, 1, 0).with_opacity(6554), rgba(26, 1, 0, 0));
    // Halves go up.
    assert_eq!(rgba(1, 3, 5, 255).with_opacity(ONE / 2), rgba(1, 2, 3, 128));
    assert_eq!(rgba(1, 3, 5, 255).with_opacity(ONE / 2 - 1), rgba(0, 1, 2, 127));
    assert_eq!(rgba(200, 100, 50, 255).with_opacity(1), rgba(0, 0, 0, 0));
    assert_eq!(rgba(200, 100, 50, 255).with_opacity(ONE - 1), rgba(200, 100, 50, 255));
}

#[test]
fn half_opacity_halves_every_channel() {
    assert_eq!(rgba(200, 100, 50, 255).with_opacity(ONE / 2), rgba(100, 50, 25, 128));
    assert_eq!(rgba(200, 100, 50, 255).with_opacity(ONE), rgba(200, 100, 50, 255));
    assert_eq!(rgba(200, 100, 50, 255).with_opacity(0), rgba(0, 0, 0, 0));
}

#[test]
fn an_opacity_out_of_range_is_brought_into_it() {
    let c = rgba(200, 100, 50, 255);
    assert_eq!(c.with_opacity(-5), rgba(0, 0, 0, 0));
    assert_eq!(c.with_opacity(i32::MIN), rgba(0, 0, 0, 0));
    assert_eq!(c.with_opacity(ONE + 5), c);
    assert_eq!(c.with_opacity(i32::MAX), c);
}

#[test]
fn opacity_matches_its_statement_on_a_sweep() {
    let mut f: i32 = -2000;
    while f <= ONE + 2000 {
        let c = rgba((f.rem_euclid(251)) as u8, 200, 17, 255);
        assert_eq!(c.with_opacity(f), expected_dimmed(c, f));
        f += 997;
    }
}

#[test]
fn opacity_agrees_with_the_floating_point_multiplication_of_the_colour_crate() {
    let mut opacity: i32 = 0;
    while opacity <= ONE {
        let factor = opacity as f32 / 65536.0;
        let mut channel: u32 = 0;
        while channel < 256 {
            let v = channel as u8;
            let ours = rgba(v, v, v, v).with_opacity(opacity);
            let theirs = epaint::Color32::from_rgba_premultiplied(v, v, v, v).gamma_multiply(factor).to_array();
            assert_eq!([ours.r, ours.g, ours.b, ours.a], theirs, "channel {} at opacity {}", v, opacity);
            channel += 1;
        }
        opacity += if opacity < 64 || opacity > ONE - 64 { 1 } else { 61 };
    }
}

#[test]
fn the_placeholder_is_never_adjusted() {
    let p = Color32::placeholder();
    assert_eq!(p.tint_towards(rgba(0, 0, 0, 255)), p);
    assert_eq!(p.tint_towards(Color32::transparent()), p);
    assert_eq!(p.with_opacity(0), p);
    assert_eq!(p.with_opacity(ONE / 3), p);
    assert_eq!(ColorAdjust::TintTowards(rgba(1, 2, 3, 4)).apply(p), p);
    assert_eq!(ColorAdjust::Opacity(100).apply(p), p);
}

#[test]
fn adjusting_a_shape_adjusts_each_colour_and_nothing_else() {
    let how = ColorAdjust::Opacity(ONE / 2);
    let stroke = Stroke { width: 64, color: rgba(200, 100, 50, 255) };
    let dim = Stroke { width: 64, color: rgba(100, 50, 25, 128) };
    let r = Rect { min: Pos2 { x: 0, y: 0 }, max: Pos2 { x: 10, y: 10 } };

    assert_eq!(Shape::Noop.adjust_colors(how), Shape::Noop);
    assert_eq!(
        Shape::LineSegment { points: [r.min, r.max], stroke }.adjust_colors(how),
        Shape::LineSegment { points: [r.min, r.max], stroke: dim }
    );
    assert_eq!(
        Shape::Path { points: vec![r.min, r.max], closed: true, fill: stroke.color, stroke }
            .adjust_colors(how),
        Shape::Path { points: vec![r.min, r.max], closed: true, fill: dim.color, stroke: dim }
    );
    assert_eq!(
        Shape::Circle { center: r.min, radius: 5, fill: Color32::placeholder(), stroke }
            .adjust_colors(how),
        Shape::Circle { center: r.min, radius: 5, fill: Color32::placeholder(), stroke: dim }
    );
    assert_eq!(
        Shape::Rect {
            rect: r,
            corner_radius: 2,
            fill: stroke.color,
            stroke,
            stroke_kind: StrokeKind::Middle
        }
        .adjust_colors(how),
        Shape::Rect {
            rect: r,
            corner_radius: 2,
            fill: dim.color,
            stroke: dim,
            stroke_kind: StrokeKind::Middle
        }
    );
    let galley = Galley { handle: 7, size: Vec2 { x: 10, y: 5 }, empty: false };
    assert_eq!(
        Shape::Text {
            pos: r.min,
            galley,
            underline: stroke,
            fallback_color: Color32::placeholder(),
            override_text_color: Some(stroke.color),
            galley_colors: GalleyColors::unchanged(),
        }
        .adjust_colors(how),
        Shape::Text {
            pos: r.min,
            galley,
            underline: dim,
            fallback_color: Color32::placeholder(),
            override_text_color: Some(dim.color),
            galley_colors: GalleyColors { fade_to_color: None, opacity_factor: ONE / 2 },
        }
    );
    assert_eq!(
        Shape::Image { texture_id: 3, rect: r, uv: r, tint: stroke.color }.adjust_colors(how),
        Shape::Image { texture_id: 3, rect: r, uv: r, tint: dim.color }
    );
}

#[test]
fn changes_to_the_colours_of_a_text_itself_are_noted() {
    let none = GalleyColors::unchanged();
    assert_eq!(none, GalleyColors { fade_to_color: None, opacity_factor: ONE });
    let grey = rgba(128, 128, 128, 255);
    let faded = none.adjusted(ColorAdjust::TintTowards(grey));
    assert_eq!(faded, GalleyColors { fade_to_color: Some(grey), opacity_factor: ONE });
    let dimmed = faded.adjusted(ColorAdjust::Opacity(ONE / 2)).adjusted(ColorAdjust::Opacity(ONE / 2));
    assert_eq!(dimmed, GalleyColors { fade_to_color: Some(grey), opacity_factor: ONE / 4 });
    assert_eq!(dimmed.adjusted(ColorAdjust::Opacity(9 * ONE)), dimmed);
    assert_eq!(dimmed.adjusted(ColorAdjust::Opacity(-1)).opacity_factor, 0);
    let white = rgba(255, 255, 255, 255);
    assert_eq!(dimmed.adjusted(ColorAdjust::TintTowards(white)).fade_to_color, Some(white));
}
