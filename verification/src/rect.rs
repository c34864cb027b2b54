//! Axis-aligned rectangles: entity-local hitboxes and world walls.

use vstd::prelude::*;
use crate::fixed::COORD_LIMIT;
use crate::vector::{Vector2D, Vec2Model};

verus! {

/// An axis-aligned box; `w` and `h` are meant to be nonnegative.
/// Coordinates are fixed-point (thousandths of a unit).
#[derive(Debug, Clone, Copy)]
pub struct Rectangle {
    pub x: i64,
    pub y: i64,
    pub w: i64,
    pub h: i64,
}

/// Mathematical model of a rectangle.
pub struct RectModel {
    pub x: int,
    pub y: int,
    pub w: int,
    pub h: int,
}

impl View for Rectangle {
    type V = RectModel;

    open spec fn view(&self) -> RectModel {
        RectModel { x: self.x as int, y: self.y as int, w: self.w as int, h: self.h as int }
    }
}

/// Strict-overlap test: rectangles that only share an edge do not overlap.
pub open spec fn rects_overlap(a: RectModel, b: RectModel) -> bool {
    &&& a.x < b.x + b.w
    &&& a.x + a.w > b.x
    &&& a.y < b.y + b.h
    &&& a.y + a.h > b.y
}

/// `r` translated by `(dx, dy)`.
pub open spec fn rect_translated(r: RectModel, dx: int, dy: int) -> RectModel {
    RectModel { x: r.x + dx, y: r.y + dy, w: r.w, h: r.h }
}

/// A well-formed rectangle: bounded coordinates and nonnegative extent.
pub open spec fn rect_wf(r: RectModel) -> bool {
    &&& -COORD_LIMIT <= r.x <= COORD_LIMIT
    &&& -COORD_LIMIT <= r.y <= COORD_LIMIT
    &&& 0 <= r.w <= COORD_LIMIT
    &&& 0 <= r.h <= COORD_LIMIT
}

/// Every field small enough that the sums taken by the overlap test and by
/// translation stay inside `i64`.
pub open spec fn rect_in_range(r: RectModel) -> bool {
    &&& -0x1000_0000_0000_0000 <= r.x <= 0x1000_0000_0000_0000
    &&& -0x1000_0000_0000_0000 <= r.y <= 0x1000_0000_0000_0000
    &&& -0x1000_0000_0000_0000 <= r.w <= 0x1000_0000_0000_0000
    &&& -0x1000_0000_0000_0000 <= r.h <= 0x1000_0000_0000_0000
}

/// Overlap is symmetric in its two arguments.
pub proof fn lemma_overlap_symmetric(a: RectModel, b: RectModel)
    ensures
        rects_overlap(a, b) == rects_overlap(b, a),
{
}

impl Rectangle {
    /// The zero rectangle.
    pub fn new() -> (r: Rectangle)
        ensures
            r@ == (RectModel { x: 0, y: 0, w: 0, h: 0 }),
    {
        Rectangle { x: 0, y: 0, w: 0, h: 0 }
    }

    /// True exactly when the two boxes strictly overlap; touching edges do
    /// not count, so an entity resting against a wall does not intersect it.
    pub fn intersects(&self, other: &Rectangle) -> (r: bool)
        requires
            rect_in_range(self@),
            rect_in_range(other@),
        ensures
            r == rects_overlap(self@, other@),
    {
        (self.x < other.x + other.w) && (self.x + self.w > other.x) && (self.y < other.y + other.h)
            && (self.y + self.h > other.y)
    }

    /// The corner with the smallest coordinates.
    pub fn min(&self) -> (r: Vector2D)
        ensures
            r@ == (Vec2Model { x: self.x as int, y: self.y as int }),
    {
        Vector2D { x: self.x, y: self.y }
    }

    /// The corner opposite `min`.
    pub fn max(&self) -> (r: Vector2D)
        requires
            rect_in_range(self@),
        ensures
            r@ == (Vec2Model { x: self.x + self.w, y: self.y + self.h }),
    {
        Vector2D { x: self.x + self.w, y: self.y + self.h }
    }

    /// This rectangle shifted by `(x, y)`; maps a local hitbox to world space.
    pub fn translate(&self, x: i64, y: i64) -> (r: Rectangle)
        requires
            i64::MIN <= self.x + x <= i64::MAX,
            i64::MIN <= self.y + y <= i64::MAX,
        ensures
            r@ == rect_translated(self@, x as int, y as int),
    {
        Rectangle { x: self.x + x, y: self.y + y, w: self.w, h: self.h }
    }

    /// The four fields multiplied by a plain factor, for the renderer.
    pub fn to_scaled_array(&self, scale: i64) -> (r: [i64; 4])
        requires
            i64::MIN <= self.x * scale <= i64::MAX,
            i64::MIN <= self.y * scale <= i64::MAX,
            i64::MIN <= self.w * scale <= i64::MAX,
            i64::MIN <= self.h * scale <= i64::MAX,
        ensures
            r@.len() == 4,
            r@[0] == self.x * scale,
            r@[1] == self.y * scale,
            r@[2] == self.w * scale,
            r@[3] == self.h * scale,
    {
        [self.x * scale, self.y * scale, self.w * scale, self.h * scale]
    }

    /// The four fields as an array.
    pub fn to_array(&self) -> (r: [i64; 4])
        ensures
            r@.len() == 4,
            r@[0] == self.x,
            r@[1] == self.y,
            r@[2] == self.w,
            r@[3] == self.h,
    {
        [self.x, self.y, self.w, self.h]
    }
}

} // verus!
