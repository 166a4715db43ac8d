//! Points, vectors, ranges and rectangles on integer coordinates.

use vstd::prelude::*;
use crate::num::{at_least, at_most, clamp, half_floor, in_bounds, clamp_int, max_int, min_int, round_int, round_to_grid,
    sat, sat_add, sat_sub, INF, NEG_INF};

verus! {

/// A displacement or a size.
#[derive(Clone, Copy, Debug, PartialEq, Eq, Structural)]
pub struct Vec2 {
    pub x: i32,
    pub y: i32,
}

/// A position on screen.
#[derive(Clone, Copy, Debug, PartialEq, Eq, Structural)]
pub struct Pos2 {
    pub x: i32,
    pub y: i32,
}

/// A closed interval of lengths or coordinates.
#[derive(Clone, Copy, Debug, PartialEq, Eq, Structural)]
pub struct Rangei {
    pub min: i32,
    pub max: i32,
}

/// An axis-aligned rectangle. It is negative, and holds no point, where a
/// component of `max` lies below that of `min`.
#[derive(Clone, Copy, Debug, PartialEq, Eq, Structural)]
pub struct Rect {
    pub min: Pos2,
    pub max: Pos2,
}

impl Vec2 {
    /// The zero vector.
    pub open spec fn spec_zero() -> Vec2 {
        Vec2 { x: 0, y: 0 }
    }

    /// The zero vector.
    #[verifier::when_used_as_spec(spec_zero)]
    pub fn zero() -> (r: Vec2)
        ensures
            r == Vec2::spec_zero(),
    {
        Vec2 { x: 0, y: 0 }
    }

    /// The vector with both components `v`.
    pub open spec fn spec_splat(v: i32) -> Vec2 {
        Vec2 { x: v, y: v }
    }

    /// The vector with both components `v`.
    #[verifier::when_used_as_spec(spec_splat)]
    pub fn splat(v: i32) -> (r: Vec2)
        ensures
            r == Vec2::spec_splat(v),
    {
        Vec2 { x: v, y: v }
    }

    /// Componentwise minimum.
    pub open spec fn spec_min(self, other: Vec2) -> Vec2 {
        Vec2 {
            x: min_int(self.x as int, other.x as int) as i32,
            y: min_int(self.y as int, other.y as int) as i32,
        }
    }

    /// Componentwise minimum.
    #[verifier::when_used_as_spec(spec_min)]
    pub fn min(self, other: Vec2) -> (r: Vec2)
        ensures
            r == self.spec_min(other),
    {
        Vec2 { x: at_most(self.x, other.x), y: at_most(self.y, other.y) }
    }

    /// Half of the vector, each component rounded down.
    pub open spec fn spec_half(self) -> Vec2 {
        Vec2 { x: (self.x as int / 2) as i32, y: (self.y as int / 2) as i32 }
    }

    /// Half of the vector, each component rounded down.
    #[verifier::when_used_as_spec(spec_half)]
    pub fn half(self) -> (r: Vec2)
        ensures
            r == self.spec_half(),
    {
        Vec2 { x: half_floor(self.x), y: half_floor(self.y) }
    }
}

impl Pos2 {
    /// The position moved by `v`, saturating.
    pub open spec fn spec_offset(self, v: Vec2) -> Pos2 {
        Pos2 { x: sat(self.x + v.x) as i32, y: sat(self.y + v.y) as i32 }
    }

    /// The position moved by `v`, saturating.
    #[verifier::when_used_as_spec(spec_offset)]
    pub fn offset(self, v: Vec2) -> (r: Pos2)
        ensures
            r == self.spec_offset(v),
    {
        Pos2 { x: sat_add(self.x, v.x), y: sat_add(self.y, v.y) }
    }

    /// The position moved against `v`, saturating.
    pub open spec fn spec_offset_back(self, v: Vec2) -> Pos2 {
        Pos2 { x: sat(self.x - v.x) as i32, y: sat(self.y - v.y) as i32 }
    }

    /// The position moved against `v`, saturating.
    #[verifier::when_used_as_spec(spec_offset_back)]
    pub fn offset_back(self, v: Vec2) -> (r: Pos2)
        ensures
            r == self.spec_offset_back(v),
    {
        Pos2 { x: sat_sub(self.x, v.x), y: sat_sub(self.y, v.y) }
    }

    /// Componentwise minimum.
    pub open spec fn spec_min(self, other: Pos2) -> Pos2 {
        Pos2 {
            x: min_int(self.x as int, other.x as int) as i32,
            y: min_int(self.y as int, other.y as int) as i32,
        }
    }

    /// Componentwise minimum.
    #[verifier::when_used_as_spec(spec_min)]
    pub fn min(self, other: Pos2) -> (r: Pos2)
        ensures
            r == self.spec_min(other),
    {
        Pos2 { x: at_most(self.x, other.x), y: at_most(self.y, other.y) }
    }

    /// Componentwise maximum.
    pub open spec fn spec_max(self, other: Pos2) -> Pos2 {
        Pos2 {
            x: max_int(self.x as int, other.x as int) as i32,
            y: max_int(self.y as int, other.y as int) as i32,
        }
    }

    /// Componentwise maximum.
    #[verifier::when_used_as_spec(spec_max)]
    pub fn max(self, other: Pos2) -> (r: Pos2)
        ensures
            r == self.spec_max(other),
    {
        Pos2 { x: at_least(self.x, other.x), y: at_least(self.y, other.y) }
    }

    /// Both coordinates rounded to the nearest multiple of `grid`.
    pub open spec fn spec_round_to_grid(self, grid: i32) -> Pos2 {
        Pos2 {
            x: round_int(self.x as int, grid as int) as i32,
            y: round_int(self.y as int, grid as int) as i32,
        }
    }

    /// Both coordinates rounded to the nearest multiple of `grid`.
    #[verifier::when_used_as_spec(spec_round_to_grid)]
    pub fn round_to_grid(self, grid: i32) -> (r: Pos2)
        ensures
            r == self.spec_round_to_grid(grid),
    {
        Pos2 { x: round_to_grid(self.x, grid), y: round_to_grid(self.y, grid) }
    }
}

impl Rangei {
    /// The interval from `min` to `max`.
    pub open spec fn spec_new(min: i32, max: i32) -> Rangei {
        Rangei { min, max }
    }

    /// The interval from `min` to `max`.
    #[verifier::when_used_as_spec(spec_new)]
    pub fn new(min: i32, max: i32) -> (r: Rangei)
        ensures
            r == Rangei::spec_new(min, max),
    {
        Rangei { min, max }
    }

    /// The interval that holds `v` alone.
    pub open spec fn spec_point(v: i32) -> Rangei {
        Rangei { min: v, max: v }
    }

    /// The interval that holds `v` alone.
    #[verifier::when_used_as_spec(spec_point)]
    pub fn point(v: i32) -> (r: Rangei)
        ensures
            r == Rangei::spec_point(v),
    {
        Rangei { min: v, max: v }
    }

    /// The same interval with its ends in order.
    pub open spec fn spec_as_positive(self) -> Rangei {
        Rangei {
            min: min_int(self.min as int, self.max as int) as i32,
            max: max_int(self.min as int, self.max as int) as i32,
        }
    }

    /// The same interval with its ends in order.
    #[verifier::when_used_as_spec(spec_as_positive)]
    pub fn as_positive(self) -> (r: Rangei)
        ensures
            r == self.spec_as_positive(),
    {
        Rangei { min: at_most(self.min, self.max), max: at_least(self.min, self.max) }
    }

    /// `x` brought into the interval, whose ends are put in order first.
    pub open spec fn spec_clamp(self, x: i32) -> i32 {
        clamp_int(x as int, self.spec_as_positive().min as int, self.spec_as_positive().max as int) as i32
    }

    /// `x` brought into the interval, whose ends are put in order first.
    #[verifier::when_used_as_spec(spec_clamp)]
    pub fn clamp(self, x: i32) -> (r: i32)
        ensures
            r == self.spec_clamp(x),
    {
        let range = self.as_positive();
        clamp(x, range.min, range.max)
    }
}

/// Where something lies along one axis of the space it is placed in.
#[derive(Clone, Copy, Debug, PartialEq, Eq, Structural)]
pub enum Align {
    Min,
    Center,
    Max,
}

/// An alignment for each axis.
#[derive(Clone, Copy, Debug, PartialEq, Eq, Structural)]
pub struct Align2 {
    pub x: Align,
    pub y: Align,
}

/// The start of an extent of `size` that is anchored at `at`.
pub open spec fn anchor_start(align: Align, at: i32, size: i32) -> i32 {
    match align {
        Align::Min => at,
        Align::Center => sat(at - size as int / 2) as i32,
        Align::Max => sat(at - size) as i32,
    }
}

impl Align2 {
    /// Anchored at the upper left corner.
    pub open spec fn spec_left_top() -> Align2 {
        Align2 { x: Align::Min, y: Align::Min }
    }

    /// Anchored at the upper left corner.
    #[verifier::when_used_as_spec(spec_left_top)]
    pub fn left_top() -> (a: Align2)
        ensures
            a == Align2::spec_left_top(),
    {
        Align2 { x: Align::Min, y: Align::Min }
    }

    /// Anchored at the centre.
    pub open spec fn spec_center_center() -> Align2 {
        Align2 { x: Align::Center, y: Align::Center }
    }

    /// Anchored at the centre.
    #[verifier::when_used_as_spec(spec_center_center)]
    pub fn center_center() -> (a: Align2)
        ensures
            a == Align2::spec_center_center(),
    {
        Align2 { x: Align::Center, y: Align::Center }
    }

    /// The rectangle of the given size of which `pos` is the anchor: its
    /// upper left corner for `Min`, its middle for `Center`, its lower right
    /// corner for `Max`, on each axis.
    pub open spec fn spec_anchor_size(self, pos: Pos2, size: Vec2) -> Rect {
        Rect::spec_from_min_size(
            Pos2 { x: anchor_start(self.x, pos.x, size.x), y: anchor_start(self.y, pos.y, size.y) },
            size,
        )
    }

    /// The rectangle of the given size of which `pos` is the anchor: its
    /// upper left corner for `Min`, its middle for `Center`, its lower right
    /// corner for `Max`, on each axis.
    #[verifier::when_used_as_spec(spec_anchor_size)]
    pub fn anchor_size(self, pos: Pos2, size: Vec2) -> (r: Rect)
        ensures
            r == self.spec_anchor_size(pos, size),
    {
        let x: i32 = match self.x {
            Align::Min => pos.x,
            Align::Center => sat_sub(pos.x, half_floor(size.x)),
            Align::Max => sat_sub(pos.x, size.x),
        };
        let y: i32 = match self.y {
            Align::Min => pos.y,
            Align::Center => sat_sub(pos.y, half_floor(size.y)),
            Align::Max => sat_sub(pos.y, size.y),
        };
        Rect::from_min_size(Pos2 { x, y }, size)
    }
}

impl Rect {
    /// Whether all four coordinates are small enough that arithmetic on
    /// them does not saturate.
    pub open spec fn in_bounds(self) -> bool {
        in_bounds(self.min.x as int) && in_bounds(self.min.y as int) && in_bounds(self.max.x as int)
            && in_bounds(self.max.y as int)
    }

    /// Whether `self` lies within `other`: intersecting with `other` takes
    /// nothing away.
    pub open spec fn is_within(self, other: Rect) -> bool {
        self.spec_intersect(other) == self
    }

    /// The rectangle that holds every point. It is the unit of intersection.
    pub open spec fn spec_everything() -> Rect {
        Rect { min: Pos2 { x: NEG_INF, y: NEG_INF }, max: Pos2 { x: INF, y: INF } }
    }

    /// The rectangle that holds every point. It is the unit of intersection.
    #[verifier::when_used_as_spec(spec_everything)]
    pub fn everything() -> (r: Rect)
        ensures
            r == Rect::spec_everything(),
    {
        Rect { min: Pos2 { x: NEG_INF, y: NEG_INF }, max: Pos2 { x: INF, y: INF } }
    }

    /// The rectangle that holds no point. It is the unit of union.
    pub open spec fn spec_nothing() -> Rect {
        Rect { min: Pos2 { x: INF, y: INF }, max: Pos2 { x: NEG_INF, y: NEG_INF } }
    }

    /// The rectangle that holds no point. It is the unit of union.
    #[verifier::when_used_as_spec(spec_nothing)]
    pub fn nothing() -> (r: Rect)
        ensures
            r == Rect::spec_nothing(),
    {
        Rect { min: Pos2 { x: INF, y: INF }, max: Pos2 { x: NEG_INF, y: NEG_INF } }
    }

    /// The rectangle between two corners.
    pub open spec fn spec_from_min_max(min: Pos2, max: Pos2) -> Rect {
        Rect { min, max }
    }

    /// The rectangle between two corners.
    #[verifier::when_used_as_spec(spec_from_min_max)]
    pub fn from_min_max(min: Pos2, max: Pos2) -> (r: Rect)
        ensures
            r == Rect::spec_from_min_max(min, max),
    {
        Rect { min, max }
    }

    /// The rectangle of the given size whose upper left corner is `min`.
    pub open spec fn spec_from_min_size(min: Pos2, size: Vec2) -> Rect {
        Rect { min, max: min.spec_offset(size) }
    }

    /// The rectangle of the given size whose upper left corner is `min`.
    #[verifier::when_used_as_spec(spec_from_min_size)]
    pub fn from_min_size(min: Pos2, size: Vec2) -> (r: Rect)
        ensures
            r == Rect::spec_from_min_size(min, size),
    {
        Rect { min, max: min.offset(size) }
    }

    /// The smallest rectangle that holds both positions.
    pub open spec fn spec_from_two_pos(a: Pos2, b: Pos2) -> Rect {
        Rect { min: a.spec_min(b), max: a.spec_max(b) }
    }

    /// The smallest rectangle that holds both positions.
    #[verifier::when_used_as_spec(spec_from_two_pos)]
    pub fn from_two_pos(a: Pos2, b: Pos2) -> (r: Rect)
        ensures
            r == Rect::spec_from_two_pos(a, b),
    {
        Rect { min: a.min(b), max: a.max(b) }
    }

    /// The rectangle that spans `x` horizontally and `y` vertically.
    pub open spec fn spec_from_x_y_ranges(x: Rangei, y: Rangei) -> Rect {
        Rect { min: Pos2 { x: x.min, y: y.min }, max: Pos2 { x: x.max, y: y.max } }
    }

    /// The rectangle that spans `x` horizontally and `y` vertically.
    #[verifier::when_used_as_spec(spec_from_x_y_ranges)]
    pub fn from_x_y_ranges(x: Rangei, y: Rangei) -> (r: Rect)
        ensures
            r == Rect::spec_from_x_y_ranges(x, y),
    {
        Rect { min: Pos2 { x: x.min, y: y.min }, max: Pos2 { x: x.max, y: y.max } }
    }

    /// The left edge.
    pub open spec fn spec_left(self) -> i32 {
        self.min.x
    }

    /// The left edge.
    #[verifier::when_used_as_spec(spec_left)]
    pub fn left(self) -> (r: i32)
        ensures
            r == self.min.x,
    {
        self.min.x
    }

    /// The right edge.
    pub open spec fn spec_right(self) -> i32 {
        self.max.x
    }

    /// The right edge.
    #[verifier::when_used_as_spec(spec_right)]
    pub fn right(self) -> (r: i32)
        ensures
            r == self.max.x,
    {
        self.max.x
    }

    /// The top edge.
    pub open spec fn spec_top(self) -> i32 {
        self.min.y
    }

    /// The top edge.
    #[verifier::when_used_as_spec(spec_top)]
    pub fn top(self) -> (r: i32)
        ensures
            r == self.min.y,
    {
        self.min.y
    }

    /// The bottom edge.
    pub open spec fn spec_bottom(self) -> i32 {
        self.max.y
    }

    /// The bottom edge.
    #[verifier::when_used_as_spec(spec_bottom)]
    pub fn bottom(self) -> (r: i32)
        ensures
            r == self.max.y,
    {
        self.max.y
    }

    /// The upper left corner.
    pub open spec fn spec_left_top(self) -> Pos2 {
        self.min
    }

    /// The upper left corner.
    #[verifier::when_used_as_spec(spec_left_top)]
    pub fn left_top(self) -> (r: Pos2)
        ensures
            r == self.min,
    {
        self.min
    }

    /// The horizontal extent, saturating.
    pub open spec fn spec_width(self) -> i32 {
        sat(self.max.x - self.min.x) as i32
    }

    /// The horizontal extent, saturating.
    #[verifier::when_used_as_spec(spec_width)]
    pub fn width(self) -> (r: i32)
        ensures
            r == self.spec_width(),
    {
        sat_sub(self.max.x, self.min.x)
    }

    /// The vertical extent, saturating.
    pub open spec fn spec_height(self) -> i32 {
        sat(self.max.y - self.min.y) as i32
    }

    /// The vertical extent, saturating.
    #[verifier::when_used_as_spec(spec_height)]
    pub fn height(self) -> (r: i32)
        ensures
            r == self.spec_height(),
    {
        sat_sub(self.max.y, self.min.y)
    }

    /// Width and height.
    pub open spec fn spec_size(self) -> Vec2 {
        Vec2 { x: self.spec_width(), y: self.spec_height() }
    }

    /// Width and height.
    #[verifier::when_used_as_spec(spec_size)]
    pub fn size(self) -> (r: Vec2)
        ensures
            r == self.spec_size(),
    {
        Vec2 { x: self.width(), y: self.height() }
    }

    /// The horizontal interval.
    pub open spec fn spec_x_range(self) -> Rangei {
        Rangei { min: self.min.x, max: self.max.x }
    }

    /// The horizontal interval.
    #[verifier::when_used_as_spec(spec_x_range)]
    pub fn x_range(self) -> (r: Rangei)
        ensures
            r == self.spec_x_range(),
    {
        Rangei { min: self.min.x, max: self.max.x }
    }

    /// The vertical interval.
    pub open spec fn spec_y_range(self) -> Rangei {
        Rangei { min: self.min.y, max: self.max.y }
    }

    /// The vertical interval.
    #[verifier::when_used_as_spec(spec_y_range)]
    pub fn y_range(self) -> (r: Rangei)
        ensures
            r == self.spec_y_range(),
    {
        Rangei { min: self.min.y, max: self.max.y }
    }

    /// The same rectangle with its right edge at `x`.
    pub open spec fn spec_with_right(self, x: i32) -> Rect {
        Rect { min: self.min, max: Pos2 { x, y: self.max.y } }
    }

    /// Moves the right edge to `x`.
    pub fn set_right(&mut self, x: i32)
        ensures
            *final(self) == old(self).spec_with_right(x),
    {
        self.max.x = x;
    }

    /// The same rectangle with its bottom edge at `y`.
    pub open spec fn spec_with_bottom(self, y: i32) -> Rect {
        Rect { min: self.min, max: Pos2 { x: self.max.x, y } }
    }

    /// Moves the bottom edge to `y`.
    pub fn set_bottom(&mut self, y: i32)
        ensures
            *final(self) == old(self).spec_with_bottom(y),
    {
        self.max.y = y;
    }

    /// Whether `p` lies in the rectangle, edges included.
    pub open spec fn spec_contains(self, p: Pos2) -> bool {
        self.min.x <= p.x <= self.max.x && self.min.y <= p.y <= self.max.y
    }

    /// Whether `p` lies in the rectangle, edges included.
    #[verifier::when_used_as_spec(spec_contains)]
    pub fn contains(self, p: Pos2) -> (r: bool)
        ensures
            r == self.spec_contains(p),
    {
        self.min.x <= p.x && p.x <= self.max.x && self.min.y <= p.y && p.y <= self.max.y
    }

    /// Whether both corners of `other` lie in the rectangle.
    pub open spec fn spec_contains_rect(self, other: Rect) -> bool {
        self.spec_contains(other.min) && self.spec_contains(other.max)
    }

    /// Whether both corners of `other` lie in the rectangle.
    #[verifier::when_used_as_spec(spec_contains_rect)]
    pub fn contains_rect(self, other: Rect) -> (r: bool)
        ensures
            r == self.spec_contains_rect(other),
    {
        self.contains(other.min) && self.contains(other.max)
    }

    /// The points common to both rectangles.
    pub open spec fn spec_intersect(self, other: Rect) -> Rect {
        Rect { min: self.min.spec_max(other.min), max: self.max.spec_min(other.max) }
    }

    /// The points common to both rectangles.
    #[verifier::when_used_as_spec(spec_intersect)]
    pub fn intersect(self, other: Rect) -> (r: Rect)
        ensures
            r == self.spec_intersect(other),
    {
        Rect { min: self.min.max(other.min), max: self.max.min(other.max) }
    }

    /// The smallest rectangle that holds both.
    pub open spec fn spec_union(self, other: Rect) -> Rect {
        Rect { min: self.min.spec_min(other.min), max: self.max.spec_max(other.max) }
    }

    /// The smallest rectangle that holds both.
    #[verifier::when_used_as_spec(spec_union)]
    pub fn union(self, other: Rect) -> (r: Rect)
        ensures
            r == self.spec_union(other),
    {
        Rect { min: self.min.min(other.min), max: self.max.max(other.max) }
    }

    /// The rectangle grown by `amount` on each side, saturating.
    pub open spec fn spec_expand2(self, amount: Vec2) -> Rect {
        Rect { min: self.min.spec_offset_back(amount), max: self.max.spec_offset(amount) }
    }

    /// The rectangle grown by `amount` on each side, saturating.
    #[verifier::when_used_as_spec(spec_expand2)]
    pub fn expand2(self, amount: Vec2) -> (r: Rect)
        ensures
            r == self.spec_expand2(amount),
    {
        Rect { min: self.min.offset_back(amount), max: self.max.offset(amount) }
    }

    /// The rectangle grown by `amount` on all four sides, saturating.
    pub open spec fn spec_expand(self, amount: i32) -> Rect {
        self.spec_expand2(Vec2 { x: amount, y: amount })
    }

    /// The rectangle grown by `amount` on all four sides, saturating.
    #[verifier::when_used_as_spec(spec_expand)]
    pub fn expand(self, amount: i32) -> (r: Rect)
        ensures
            r == self.spec_expand(amount),
    {
        self.expand2(Vec2 { x: amount, y: amount })
    }

    /// Both corners rounded to the nearest multiple of `grid`.
    pub open spec fn spec_round_to_grid(self, grid: i32) -> Rect {
        Rect { min: self.min.spec_round_to_grid(grid), max: self.max.spec_round_to_grid(grid) }
    }

    /// Both corners rounded to the nearest multiple of `grid`.
    #[verifier::when_used_as_spec(spec_round_to_grid)]
    pub fn round_to_grid(self, grid: i32) -> (r: Rect)
        ensures
            r == self.spec_round_to_grid(grid),
    {
        Rect { min: self.min.round_to_grid(grid), max: self.max.round_to_grid(grid) }
    }

    /// The rectangle with each `max` component raised to its `min` component
    /// where it lay below: the result is never negative.
    pub open spec fn spec_non_negative(self) -> Rect {
        Rect { min: self.min, max: self.max.spec_max(self.min) }
    }

    /// The rectangle with each `max` component raised to its `min` component
    /// where it lay below: the result is never negative.
    #[verifier::when_used_as_spec(spec_non_negative)]
    pub fn non_negative(self) -> (r: Rect)
        ensures
            r == self.spec_non_negative(),
    {
        Rect { min: self.min, max: self.max.max(self.min) }
    }
}

} // verus!
