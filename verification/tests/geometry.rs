use gui_core::geom::{Align, Align2, Pos2, Rangei, Rect, Vec2};
use gui_core::num::{
    at_least, at_most, clamp, half_floor, lerp, round_to_grid, sat_add, sat_sub, scale, INF,
    NEG_INF, ONE, UNITS_PER_POINT,
};

fn rect(x0: i32, y0: i32, x1: i32, y1: i32) -> Rect {
    Rect { min: Pos2 { x: x0, y: y0 }, max: Pos2 { x: x1, y: y1 } }
}

#[test]
fn sums_and_differences_saturate() {
    assert_eq!(sat_add(1, 2), 3);
    assert_eq!(sat_add(INF, 1), INF);
    assert_eq!(sat_add(NEG_INF, -1), NEG_INF);
    assert_eq!(sat_sub(NEG_INF, 1), NEG_INF);
    assert_eq!(sat_sub(INF, -1), INF);
    assert_eq!(sat_sub(5, 7), -2);
}

#[test]
fn clamp_prefers_the_lower_bound_when_bounds_cross() {
    assert_eq!(clamp(5, 0, 10), 5);
    assert_eq!(clamp(-3, 0, 10), 0);
    assert_eq!(clamp(30, 0, 10), 10);
    assert_eq!(clamp(5, 10, 0), 10);
    assert_eq!(at_most(3, 4), 3);
    assert_eq!(at_least(3, 4), 4);
}

#[test]
fn scale_rounds_down() {
    assert_eq!(scale(100, ONE), 100);
    assert_eq!(scale(100, ONE / 2), 50);
    assert_eq!(scale(3, ONE / 2), 1);
    assert_eq!(scale(-3, ONE / 2), -2);
    assert_eq!(scale(INF, INF), INF);
    assert_eq!(scale(NEG_INF, INF), NEG_INF);
    assert_eq!(scale(0, 12345), 0);
}

#[test]
fn lerp_hits_both_ends() {
    assert_eq!(lerp(10, 30, 0), 10);
    assert_eq!(lerp(10, 30, ONE), 30);
    assert_eq!(lerp(10, 30, ONE / 2), 20);
    assert_eq!(lerp(30, 10, ONE / 4), 25);
    assert_eq!(lerp(NEG_INF, INF, ONE / 2), -1);
    assert_eq!(lerp(NEG_INF, INF, ONE), INF);
}

#[test]
fn half_floor_rounds_towards_negative_infinity() {
    assert_eq!(half_floor(7), 3);
    assert_eq!(half_floor(-7), -4);
    assert_eq!(half_floor(-8), -4);
    assert_eq!(half_floor(0), 0);
    assert_eq!(half_floor(NEG_INF), -1073741824);
    assert_eq!(half_floor(INF), 1073741823);
}

#[test]
fn rounding_goes_to_the_nearest_grid_point_ties_up() {
    assert_eq!(round_to_grid(0, 64), 0);
    assert_eq!(round_to_grid(31, 64), 0);
    assert_eq!(round_to_grid(32, 64), 64);
    assert_eq!(round_to_grid(95, 64), 64);
    assert_eq!(round_to_grid(96, 64), 128);
    assert_eq!(round_to_grid(-32, 64), 0);
    assert_eq!(round_to_grid(-33, 64), -64);
    assert_eq!(round_to_grid(7, 3), 6);
    assert_eq!(round_to_grid(8, 3), 9);
    // A grid of one, or a grid that is not positive, leaves the value.
    assert_eq!(round_to_grid(77, 1), 77);
    assert_eq!(round_to_grid(77, 0), 77);
    assert_eq!(round_to_grid(77, -5), 77);
    assert_eq!(round_to_grid(INF, 64), INF);
}

#[test]
fn rounding_is_idempotent() {
    let mut v = -1000;
    while v <= 1000 {
        let once = round_to_grid(v, 48);
        assert_eq!(round_to_grid(once, 48), once);
        assert_eq!(once % 48, 0);
        assert!((once - v).abs() <= 24);
        v += 7;
    }
}

#[test]
fn rect_size_and_edges() {
    let r = rect(10, 20, 110, 70);
    assert_eq!(r.width(), 100);
    assert_eq!(r.height(), 50);
    assert_eq!(r.size(), Vec2 { x: 100, y: 50 });
    assert_eq!(r.left(), 10);
    assert_eq!(r.right(), 110);
    assert_eq!(r.top(), 20);
    assert_eq!(r.bottom(), 70);
    assert_eq!(r.left_top(), Pos2 { x: 10, y: 20 });
    assert_eq!(r.x_range(), Rangei { min: 10, max: 110 });
    assert_eq!(r.y_range(), Rangei { min: 20, max: 70 });
    assert_eq!(Rect::everything().width(), INF);
    assert_eq!(Rect::nothing().width(), NEG_INF);
}

#[test]
fn rect_constructors() {
    assert_eq!(
        Rect::from_min_size(Pos2 { x: 1, y: 2 }, Vec2 { x: 10, y: 20 }),
        rect(1, 2, 11, 22)
    );
    assert_eq!(
        Rect::from_two_pos(Pos2 { x: 9, y: 2 }, Pos2 { x: 1, y: 7 }),
        rect(1, 2, 9, 7)
    );
    assert_eq!(
        Rect::from_x_y_ranges(Rangei::new(1, 2), Rangei::point(5)),
        rect(1, 5, 2, 5)
    );
    assert_eq!(
        Rect::from_min_max(Pos2 { x: 1, y: 2 }, Pos2 { x: 3, y: 4 }),
        rect(1, 2, 3, 4)
    );
}

#[test]
fn intersection_and_union() {
    let a = rect(0, 0, 100, 100);
    let b = rect(50, 20, 150, 80);
    assert_eq!(a.intersect(b), rect(50, 20, 100, 80));
    assert_eq!(a.union(b), rect(0, 0, 150, 100));
    // Disjoint rectangles intersect in a negative one.
    let c = rect(200, 0, 300, 10);
    assert_eq!(a.intersect(c), rect(200, 0, 100, 10));
    assert_eq!(a.intersect(Rect::everything()), a);
    assert_eq!(a.union(Rect::nothing()), a);
    assert_eq!(a.intersect(c).non_negative(), rect(200, 0, 200, 10));
}

#[test]
fn rect_contains() {
    let a = rect(0, 0, 100, 100);
    assert!(a.contains(Pos2 { x: 0, y: 0 }));
    assert!(a.contains(Pos2 { x: 100, y: 100 }));
    assert!(!a.contains(Pos2 { x: 101, y: 50 }));
    assert!(a.contains_rect(rect(10, 10, 20, 20)));
    assert!(!a.contains_rect(rect(10, 10, 200, 20)));
}

#[test]
fn rect_expand_and_set_edges() {
    let a = rect(10, 10, 20, 20);
    assert_eq!(a.expand(5), rect(5, 5, 25, 25));
    assert_eq!(a.expand2(Vec2 { x: 1, y: 2 }), rect(9, 8, 21, 22));
    assert_eq!(rect(NEG_INF, 0, INF, 0).expand(1), rect(NEG_INF, -1, INF, 1));
    let mut b = a;
    b.set_right(50);
    b.set_bottom(60);
    assert_eq!(b, rect(10, 10, 50, 60));
    assert_eq!(rect(31, 32, 95, 96).round_to_grid(64), rect(0, 64, 64, 128));
}

#[test]
fn range_clamp_orders_its_ends() {
    assert_eq!(Rangei::new(10, 0).as_positive(), Rangei::new(0, 10));
    assert_eq!(Rangei::new(10, 0).clamp(5), 5);
    assert_eq!(Rangei::new(10, 0).clamp(-5), 0);
    assert_eq!(Rangei::new(0, 10).clamp(50), 10);
    assert_eq!(Rangei::point(7).clamp(50), 7);
}

#[test]
fn vectors_and_positions() {
    assert_eq!(Vec2::zero(), Vec2 { x: 0, y: 0 });
    assert_eq!(Vec2::splat(3), Vec2 { x: 3, y: 3 });
    assert_eq!(Vec2 { x: 3, y: 9 }.min(Vec2 { x: 5, y: 2 }), Vec2 { x: 3, y: 2 });
    assert_eq!(Vec2 { x: 7, y: -7 }.half(), Vec2 { x: 3, y: -4 });
    let p = Pos2 { x: 1, y: 2 };
    assert_eq!(p.offset(Vec2 { x: 10, y: 20 }), Pos2 { x: 11, y: 22 });
    assert_eq!(p.offset_back(Vec2 { x: 10, y: 20 }), Pos2 { x: -9, y: -18 });
    assert_eq!(p.min(Pos2 { x: 0, y: 5 }), Pos2 { x: 0, y: 2 });
    assert_eq!(p.max(Pos2 { x: 0, y: 5 }), Pos2 { x: 1, y: 5 });
    assert_eq!(Pos2 { x: 33, y: 31 }.round_to_grid(64), Pos2 { x: 64, y: 0 });
}

#[test]
fn anchoring_a_size_at_a_position() {
    let pos = Pos2 { x: 100, y: 200 };
    let size = Vec2 { x: 31, y: 10 };
    assert_eq!(Align2::left_top().anchor_size(pos, size), rect(100, 200, 131, 210));
    assert_eq!(Align2::center_center().anchor_size(pos, size), rect(85, 195, 116, 205));
    let right_bottom = Align2 { x: Align::Max, y: Align::Max };
    assert_eq!(right_bottom.anchor_size(pos, size), rect(69, 190, 100, 200));
}

#[test]
fn a_point_is_sixty_four_units() {
    assert_eq!(UNITS_PER_POINT, 64);
    assert_eq!(ONE, 65536);
}
