//! Geometry primitives: points and velocities, with motion math and the
//! arena-bounds operations.
//!
//! Coordinates are fixed-point numbers (see fx).  Arena bounds are a pair
//! (max_x, max_y); a point is in bounds when 0 <= x <= max_x and
//! 0 <= y <= max_y.

use vstd::prelude::*;
use crate::fx::abs_int;
use crate::fx::cos_of;
use crate::fx::fx_add;
use crate::fx::fx_add_s;
use crate::fx::fx_cos;
use crate::fx::fx_mul;
use crate::fx::fx_mul_s;
use crate::fx::fx_sin;
use crate::fx::isqrt;
use crate::fx::isqrt_s;
use crate::fx::sin_of;

verus! {

/// A position in the plane, as a pair of fixed-point coordinates.
#[derive(Clone, Copy, Debug, PartialEq, Eq, Structural)]
pub struct Point {
    pub x: i64,
    pub y: i64,
}

/// A velocity: a fixed-point speed (units per second, possibly negative for
/// reverse motion) and a heading in fixed-point radians.
#[derive(Clone, Copy, Debug, PartialEq, Eq, Structural)]
pub struct Velocity {
    pub speed: i64,
    pub heading: i64,
}

/// The squared distance between two points, saturated at the u128 range.
pub open spec fn dist2_s(a: Point, b: Point) -> int {
    let dx = a.x as int - b.x as int;
    let dy = a.y as int - b.y as int;
    let s = dx * dx + dy * dy;
    if s > u128::MAX as int {
        u128::MAX as int
    } else {
        s
    }
}

/// The distance between two points: the integer square root of the squared
/// distance, saturated at the i64 range.
pub open spec fn dist_s(a: Point, b: Point) -> int {
    if isqrt_s(dist2_s(a, b) as nat) > i64::MAX as nat {
        i64::MAX as int
    } else {
        isqrt_s(dist2_s(a, b) as nat) as int
    }
}

/// The x component of a velocity: speed * cos(heading).
pub open spec fn vel_x_s(v: Velocity) -> int {
    fx_mul_s(cos_of(v.heading) as int, v.speed as int)
}

/// The y component of a velocity: speed * sin(heading).
pub open spec fn vel_y_s(v: Velocity) -> int {
    fx_mul_s(sin_of(v.heading) as int, v.speed as int)
}

/// Where a point lands after moving for dt seconds at velocity v.
pub open spec fn move_time_s(p: Point, dt: int, v: Velocity) -> Point {
    Point {
        x: fx_add_s(p.x as int, fx_mul_s(vel_x_s(v), dt)) as i64,
        y: fx_add_s(p.y as int, fx_mul_s(vel_y_s(v), dt)) as i64,
    }
}

/// Where a point lands after moving a given distance along a given heading.
pub open spec fn move_distance_s(p: Point, distance: int, heading: int) -> Point {
    Point {
        x: fx_add_s(p.x as int, fx_mul_s(cos_of(heading as i64) as int, distance)) as i64,
        y: fx_add_s(p.y as int, fx_mul_s(sin_of(heading as i64) as int, distance)) as i64,
    }
}

/// Whether a point lies strictly outside the bounds; a point exactly on the
/// boundary is in bounds.
pub open spec fn out_of_bounds_s(p: Point, bounds: (i64, i64)) -> bool {
    p.x > bounds.0 || p.x < 0 || p.y > bounds.1 || p.y < 0
}

/// A point teleported to the opposite edge on each axis where it exceeds the
/// bounds.
pub open spec fn wrap_s(p: Point, bounds: (i64, i64)) -> Point {
    let x = if p.x > bounds.0 {
        0
    } else if p.x < 0 {
        bounds.0
    } else {
        p.x
    };
    let y = if p.y > bounds.1 {
        0
    } else if p.y < 0 {
        bounds.1
    } else {
        p.y
    };
    Point { x, y }
}

/// A point clamped into [0, max_x] x [0, max_y].
pub open spec fn clamp_s(p: Point, bounds: (i64, i64)) -> Point {
    let x = if p.x > bounds.0 {
        bounds.0
    } else if p.x < 0 {
        0
    } else {
        p.x
    };
    let y = if p.y > bounds.1 {
        bounds.1
    } else if p.y < 0 {
        0
    } else {
        p.y
    };
    Point { x, y }
}

/// The distance is symmetric in its two points.
pub proof fn lemma_distance_symmetric(a: Point, b: Point)
    ensures
        dist_s(a, b) == dist_s(b, a),
{
    assert((a.x as int - b.x as int) * (a.x as int - b.x as int) == (b.x as int - a.x as int) * (
    b.x as int - a.x as int)
        && (a.y as int - b.y as int) * (a.y as int - b.y as int) == (b.y as int - a.y as int) * (
    b.y as int - a.y as int)) by (nonlinear_arith);
    assert(dist2_s(a, b) == dist2_s(b, a));
}

/// The distance from a point to itself is zero.
pub proof fn lemma_distance_self(a: Point)
    ensures
        dist_s(a, a) == 0,
{
    assert((0 as int) * (0 as int) == 0) by (nonlinear_arith);
    assert(dist2_s(a, a) == 0);
    assert(isqrt_s(0) == 0);
}

impl Point {
    /// Create a new point with the given coordinates.
    pub fn new(x: i64, y: i64) -> (p: Point)
        ensures
            p == (Point { x, y }),
    {
        Point { x, y }
    }

    /// The linear distance to another point.
    pub fn distance_to(&self, other: &Point) -> (r: i64)
        ensures
            r as int == dist_s(*self, *other),
            r >= 0,
    {
        let dxa: u128 = absdiff(self.x, other.x);
        let dya: u128 = absdiff(self.y, other.y);
        proof {
            let dx = self.x as int - other.x as int;
            let dy = self.y as int - other.y as int;
            assert(dxa * dxa == dx * dx && dxa * dxa < 0x100000000000000000000000000000000)
                by (nonlinear_arith)
                requires
                    dxa == abs_int(dx),
                    dxa < 0x10000000000000000,
            ;
            assert(dya * dya == dy * dy && dya * dya < 0x100000000000000000000000000000000)
                by (nonlinear_arith)
                requires
                    dya == abs_int(dy),
                    dya < 0x10000000000000000,
            ;
        }
        let sx: u128 = dxa * dxa;
        let sy: u128 = dya * dya;
        let d2: u128 = if sx > u128::MAX - sy {
            u128::MAX
        } else {
            sx + sy
        };
        let root: u128 = isqrt(d2);
        proof {
            assert(d2 as int == dist2_s(*self, *other));
        }
        if root > i64::MAX as u128 {
            i64::MAX
        } else {
            root as i64
        }
    }

    /// Update this point after moving for dt seconds at the given velocity.
    pub fn move_time(&mut self, dt: i64, velocity: &Velocity)
        ensures
            *final(self) == move_time_s(*old(self), dt as int, *velocity),
    {
        let (dx, dy) = velocity.get_components();
        self.x = fx_add(self.x, fx_mul(dx, dt));
        self.y = fx_add(self.y, fx_mul(dy, dt));
    }

    /// Move this point a linear distance along the given heading.
    pub fn move_distance(&mut self, distance: i64, heading: i64)
        ensures
            *final(self) == move_distance_s(*old(self), distance as int, heading as int),
    {
        self.x = fx_add(self.x, fx_mul(fx_cos(heading), distance));
        self.y = fx_add(self.y, fx_mul(fx_sin(heading), distance));
    }

    /// Check whether this point is strictly outside the given bounds.
    pub fn is_out_of_bounds(&self, bounds: (i64, i64)) -> (r: bool)
        ensures
            r == out_of_bounds_s(*self, bounds),
    {
        let (max_x, max_y) = bounds;
        self.x > max_x || self.x < 0 || self.y > max_y || self.y < 0
    }

    /// If this point is out of bounds, wrap it to the other side.
    pub fn wrap_bounds(&mut self, bounds: (i64, i64))
        ensures
            *final(self) == wrap_s(*old(self), bounds),
    {
        let (max_x, max_y) = bounds;
        if self.x > max_x {
            self.x = 0;
        } else if self.x < 0 {
            self.x = max_x;
        }
        if self.y > max_y {
            self.y = 0;
        } else if self.y < 0 {
            self.y = max_y;
        }
    }

    /// Clamp this point into the given bounds.
    pub fn keep_in_bounds(&mut self, bounds: (i64, i64))
        ensures
            *final(self) == clamp_s(*old(self), bounds),
    {
        let (max_x, max_y) = bounds;
        if self.x > max_x {
            self.x = max_x;
        } else if self.x < 0 {
            self.x = 0;
        }
        if self.y > max_y {
            self.y = max_y;
        } else if self.y < 0 {
            self.y = 0;
        }
    }
}

/// The absolute difference of two fixed-point numbers, widened to u128.
fn absdiff(a: i64, b: i64) -> (r: u128)
    ensures
        r as int == abs_int(a as int - b as int),
        r < 0x10000000000000000,
{
    let d: i128 = a as i128 - b as i128;
    if d >= 0 {
        d as u128
    } else {
        (-d) as u128
    }
}

impl Velocity {
    /// Create a new velocity with the given speed and heading.
    pub fn new(speed: i64, heading: i64) -> (v: Velocity)
        ensures
            v == (Velocity { speed, heading }),
    {
        Velocity { speed, heading }
    }

    /// The x and y components of this velocity.
    pub fn get_components(&self) -> (r: (i64, i64))
        ensures
            r.0 as int == vel_x_s(*self),
            r.1 as int == vel_y_s(*self),
    {
        let x: i64 = fx_mul(fx_cos(self.heading), self.speed);
        let y: i64 = fx_mul(fx_sin(self.heading), self.speed);
        (x, y)
    }
}

} // verus!
