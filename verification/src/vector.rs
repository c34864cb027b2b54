//! 2D fixed-point vectors.

use vstd::prelude::*;
use crate::fixed::{div_t, COORD_LIMIT, SCALE};

verus! {

/// An immutable 2D vector; components are fixed-point (thousandths of a
/// unit).  Operations return new values.
#[derive(Debug, Clone, Copy)]
pub struct Vector2D {
    pub x: i64,
    pub y: i64,
}

/// Mathematical model of a vector.
pub struct Vec2Model {
    pub x: int,
    pub y: int,
}

impl View for Vector2D {
    type V = Vec2Model;

    open spec fn view(&self) -> Vec2Model {
        Vec2Model { x: self.x as int, y: self.y as int }
    }
}

impl Vector2D {
    /// The zero vector.
    pub fn new() -> (r: Vector2D)
        ensures
            r@ == (Vec2Model { x: 0, y: 0 }),
    {
        Vector2D { x: 0, y: 0 }
    }

    /// Component-wise sum.
    pub fn add(&self, other: Vector2D) -> (r: Vector2D)
        requires
            i64::MIN <= self.x + other.x <= i64::MAX,
            i64::MIN <= self.y + other.y <= i64::MAX,
        ensures
            r@ == (Vec2Model { x: self.x + other.x, y: self.y + other.y }),
    {
        Vector2D { x: self.x + other.x, y: self.y + other.y }
    }

    /// This vector scaled by the fixed-point factor `scale`, truncating
    /// toward zero.
    pub fn mul(&self, scale: i64) -> (r: Vector2D)
        requires
            i64::MIN < self.x * scale <= i64::MAX,
            i64::MIN < self.y * scale <= i64::MAX,
        ensures
            r@ == (Vec2Model {
                x: div_t(self.x * scale, SCALE as int),
                y: div_t(self.y * scale, SCALE as int),
            }),
    {
        Vector2D { x: crate::fixed::div_fix(self.x * scale, SCALE), y: crate::fixed::div_fix(
            self.y * scale,
            SCALE,
        ) }
    }

    /// The squared length, exactly.
    pub fn len_sq(&self) -> (r: i128)
        requires
            i64::MIN < self.x,
            i64::MIN < self.y,
        ensures
            r == self.x * self.x + self.y * self.y,
    {
        proof {
            assert(0 <= self.x * self.x < 0x4000_0000_0000_0000_0000_0000_0000_0000)
                by (nonlinear_arith)
                requires
                    -0x8000_0000_0000_0000 < self.x < 0x8000_0000_0000_0000,
            ;
            assert(0 <= self.y * self.y < 0x4000_0000_0000_0000_0000_0000_0000_0000)
                by (nonlinear_arith)
                requires
                    -0x8000_0000_0000_0000 < self.y < 0x8000_0000_0000_0000,
            ;
        }
        (self.x as i128) * (self.x as i128) + (self.y as i128) * (self.y as i128)
    }

    /// The length rounded down to a whole fixed-point tick: the unique `r`
    /// with `r * r <= x*x + y*y < (r + 1) * (r + 1)`.
    pub fn len(&self) -> (r: i64)
        requires
            -COORD_LIMIT <= self.x <= COORD_LIMIT,
            -COORD_LIMIT <= self.y <= COORD_LIMIT,
        ensures
            0 <= r,
            r * r <= self.x * self.x + self.y * self.y,
            self.x * self.x + self.y * self.y < (r + 1) * (r + 1),
    {
        let sq: i128 = self.len_sq();
        proof {
            assert(0 <= self.x * self.x && self.x * self.x <= COORD_LIMIT * COORD_LIMIT)
                by (nonlinear_arith)
                requires
                    -COORD_LIMIT <= self.x <= COORD_LIMIT,
            ;
            assert(0 <= self.y * self.y && self.y * self.y <= COORD_LIMIT * COORD_LIMIT)
                by (nonlinear_arith)
                requires
                    -COORD_LIMIT <= self.y <= COORD_LIMIT,
            ;
        }
        let root: u64 = isqrt(sq as u128);
        proof {
            assert(root < 2_000_000_000_000) by (nonlinear_arith)
                requires
                    (root as int) * (root as int) <= 2_000_000_000_000_000_000_000_000,
            ;
        }
        root as i64
    }

    /// The vector scaled to length one unit (`SCALE` ticks), truncating each
    /// component; the zero vector is returned unchanged.
    pub fn to_unit(&self) -> (r: Vector2D)
        requires
            -COORD_LIMIT <= self.x <= COORD_LIMIT,
            -COORD_LIMIT <= self.y <= COORD_LIMIT,
        ensures
            self.x == 0 && self.y == 0 ==> r@ == (Vec2Model { x: 0, y: 0 }),
            !(self.x == 0 && self.y == 0) ==> exists|l: int|
                #[trigger] is_rounded_len(l, self.x * self.x + self.y * self.y) && r@ == (Vec2Model {
                    x: div_t(self.x * SCALE, l),
                    y: div_t(self.y * SCALE, l),
                }),
    {
        if self.x == 0 && self.y == 0 {
            Vector2D { x: 0, y: 0 }
        } else {
            let l: i64 = self.len();
            proof {
                assert(self.x * self.x + self.y * self.y >= 1) by (nonlinear_arith)
                    requires
                        self.x != 0 || self.y != 0,
                ;
                assert(l >= 1) by (nonlinear_arith)
                    requires
                        0 <= l,
                        self.x * self.x + self.y * self.y >= 1,
                        self.x * self.x + self.y * self.y < (l + 1) * (l + 1),
                ;
                assert(self.x * SCALE <= COORD_LIMIT * SCALE && -(COORD_LIMIT * SCALE) <= self.x
                    * SCALE) by (nonlinear_arith)
                    requires
                        -COORD_LIMIT <= self.x <= COORD_LIMIT,
                        SCALE == 1000,
                ;
                assert(self.y * SCALE <= COORD_LIMIT * SCALE && -(COORD_LIMIT * SCALE) <= self.y
                    * SCALE) by (nonlinear_arith)
                    requires
                        -COORD_LIMIT <= self.y <= COORD_LIMIT,
                        SCALE == 1000,
                ;
            }
            let r = Vector2D { x: crate::fixed::div_fix(self.x * SCALE, l), y: crate::fixed::div_fix(
                self.y * SCALE,
                l,
            ) };
            proof {
                let lw = l as int;
                assert(is_rounded_len(lw, self.x * self.x + self.y * self.y) && r@ == (Vec2Model {
                    x: div_t(self.x * SCALE, lw),
                    y: div_t(self.y * SCALE, lw),
                }));
            }
            r
        }
    }
}

/// `l` is the length of a vector of squared length `sq`, rounded down to a
/// whole positive tick.
pub open spec fn is_rounded_len(l: int, sq: int) -> bool {
    &&& 1 <= l
    &&& l * l <= sq
    &&& sq < (l + 1) * (l + 1)
}

/// The integer square root, rounded down.
fn isqrt(n: u128) -> (r: u64)
    requires
        n < 0x4000_0000_0000_0000_0000_0000_0000_0000,
    ensures
        r * r <= n < (r + 1) * (r + 1),
{
    if n == 0 {
        return 0;
    }
    let mut lo: u64 = 0;
    let mut hi: u64 = u64::MAX;
    proof {
        assert((hi as int) * (hi as int) > n as int) by (nonlinear_arith)
            requires
                hi == u64::MAX,
                n < 0x4000_0000_0000_0000_0000_0000_0000_0000,
        ;
    }
    while lo + 1 < hi
        invariant
            lo < hi,
            (lo as int) * (lo as int) <= n as int,
            (hi as int) * (hi as int) > n as int,
        decreases hi - lo,
    {
        let mid: u64 = lo + (hi - lo) / 2;
        proof {
            assert(0 <= (mid as int) * (mid as int) <= u128::MAX) by (nonlinear_arith)
                requires
                    0 <= mid < 0x1_0000_0000_0000_0000,
            ;
        }
        if (mid as u128) * (mid as u128) <= n {
            lo = mid;
        } else {
            hi = mid;
        }
    }
    lo
}

} // verus!
