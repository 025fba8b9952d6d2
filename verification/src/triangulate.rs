//! Triangulation of the 2D primitives.
//!
//! A square is exact and splits into two triangles. A circle is
//! approximated by a regular polygon whose side count grows until the gap
//! between the circumscribed circle and the polygon's incircle drops to the
//! caller's tolerance; the polygon is then triangulated as a fan. The
//! trigonometric values come from the fixed-point cosine and sine named in
//! `trig`; everything around them is exact integer arithmetic.

use vstd::prelude::*;

use vstd::arithmetic::div_mod::lemma_div_is_ordered;
use vstd::arithmetic::div_mod::lemma_div_multiples_vanish_fancy;
use vstd::arithmetic::div_mod::lemma_div_nonincreasing;
use vstd::arithmetic::div_mod::lemma_div_pos_is_pos;
use vstd::arithmetic::div_mod::lemma_fundamental_div_mod;
use vstd::arithmetic::div_mod::lemma_mod_division_less_than_divisor;
use vstd::arithmetic::mul::lemma_mul_inequality;
use vstd::arithmetic::mul::lemma_mul_is_commutative;
use vstd::arithmetic::mul::lemma_mul_is_distributive_sub;
use vstd::arithmetic::mul::lemma_mul_is_distributive_sub_other_way;
use vstd::arithmetic::mul::lemma_mul_nonnegative;
use vstd::arithmetic::mul::lemma_mul_unary_negation;

use crate::faces::Triangle;
use crate::math::Point;
use crate::shape::Circle;
use crate::shape::Shape2d;
use crate::shape::Square;
use crate::trig::cos_fix;
use crate::trig::cos_fixed;
use crate::trig::sin_fix;
use crate::trig::sin_fixed;
use crate::trig::FIX_ONE;
use crate::trig::PI_FIX;
use crate::trig::TAU_FIX;
use crate::COORD_LIMIT;

verus! {

/// The largest polygon side count the circle approximation will try. For
/// every radius within the kernel's coordinate bound and every tolerance
/// of at least one lattice unit, the search stops far below this cap.
pub const MAX_SIDES: usize = 131072;

/// The tolerance test of the circle approximation: an n-gon circumscribed
/// by a circle of the given radius deviates from it by
/// `radius - radius * cos(pi / n)`, the gap between the circle and the
/// polygon's incircle. This predicate compares that error against the
/// tolerance, both scaled to the fixed-point format.
pub open spec fn circle_error_within(radius: int, tol: int, n: int) -> bool {
    radius * ((FIX_ONE as int) - cos_fix(((PI_FIX as int) / n) as i64)) <= tol * (FIX_ONE as int)
}

/// The polygon side count chosen for a circle, searching upward from `n`:
/// the first count whose approximation error is within the tolerance, or
/// the cap if none is.
pub open spec fn spec_side_count_from(radius: int, tol: int, n: int) -> int
    decreases MAX_SIDES - n,
    when n <= MAX_SIDES
{
    if n >= MAX_SIDES {
        MAX_SIDES as int
    } else if circle_error_within(radius, tol, n) {
        n
    } else {
        spec_side_count_from(radius, tol, n + 1)
    }
}

/// The polygon side count chosen for a circle: the smallest count, from 3
/// up, whose approximation error is within the tolerance (or the cap, if
/// none is).
pub open spec fn spec_side_count(radius: int, tol: int) -> int {
    spec_side_count_from(radius, tol, 3)
}

/// The chosen side count always lies between its starting point and the
/// cap; in particular a circle polygon always has at least 3 sides.
pub proof fn lemma_side_count_bounds(radius: int, tol: int, n: int)
    requires
        3 <= n <= MAX_SIDES,
    ensures
        n <= spec_side_count_from(radius, tol, n) <= MAX_SIDES,
    decreases MAX_SIDES - n,
{
    if n < MAX_SIDES && !circle_error_within(radius, tol, n) {
        lemma_side_count_bounds(radius, tol, n + 1);
    }
}

proof fn lemma_side_count_from_monotone(radius: int, t1: int, t2: int, n: int)
    requires
        t1 <= t2,
        3 <= n <= MAX_SIDES,
    ensures
        spec_side_count_from(radius, t2, n) <= spec_side_count_from(radius, t1, n),
    decreases MAX_SIDES - n,
{
    lemma_mul_inequality(t1, t2, FIX_ONE as int);
    if n >= MAX_SIDES {
    } else if circle_error_within(radius, t1, n) {
        assert(circle_error_within(radius, t2, n));
    } else if circle_error_within(radius, t2, n) {
        lemma_side_count_bounds(radius, t1, n);
    } else {
        lemma_side_count_from_monotone(radius, t1, t2, n + 1);
    }
}

/// Increasing the tolerance never increases the chosen polygon side count,
/// and the count never drops below 3.
pub proof fn lemma_side_count_monotone(radius: int, t1: int, t2: int)
    requires
        t1 <= t2,
    ensures
        spec_side_count(radius, t2) <= spec_side_count(radius, t1),
        3 <= spec_side_count(radius, t1) <= MAX_SIDES,
        3 <= spec_side_count(radius, t2) <= MAX_SIDES,
{
    lemma_side_count_bounds(radius, t1, 3);
    lemma_side_count_bounds(radius, t2, 3);
    lemma_side_count_from_monotone(radius, t1, t2, 3);
}

/// The product of two values is bounded by the product of their bounds.
proof fn lemma_mul_bounds_abs(a: int, b: int, ab: int, bb: int)
    requires
        -ab <= a <= ab,
        -bb <= b <= bb,
        0 <= ab,
        0 <= bb,
    ensures
        -(ab * bb) <= a * b <= ab * bb,
{
    assert(-(ab * bb) <= a * b <= ab * bb) by (nonlinear_arith)
        requires
            -ab <= a <= ab,
            -bb <= b <= bb,
            0 <= ab,
            0 <= bb,
    ;
}

/// Dividing a negative number rounds away from zero under Euclidean
/// division: `(-m) / f` is the negated rounded-up quotient of `m / f`.
proof fn lemma_neg_ceil_div(m: int, f: int)
    requires
        0 < m,
        0 < f,
    ensures
        (-m) / f == -((m + f - 1) / f),
{
    let qe = (-m) / f;
    let re = (-m) % f;
    lemma_fundamental_div_mod(-m, f);
    lemma_mod_division_less_than_divisor(-m, f);
    lemma_mul_unary_negation(f, qe);
    assert(f * (-qe) + (f - 1 - re) == m + f - 1);
    lemma_div_multiples_vanish_fancy(-qe, f - 1 - re, f);
}

/// Pick the polygon side count for a circle of the given radius: start at
/// 3 sides and increase the count one by one until the approximation error
/// `radius - radius * cos(pi / n)` is within the tolerance. The search is
/// capped, far above any count the admitted inputs can need.
pub fn side_count(radius: i64, tolerance: i64) -> (n: usize)
    requires
        1 <= radius <= COORD_LIMIT,
        1 <= tolerance,
    ensures
        n == spec_side_count(radius as int, tolerance as int),
        3 <= n <= MAX_SIDES,
{
    proof {
        lemma_side_count_bounds(radius as int, tolerance as int, 3);
    }
    let mut n: usize = 3;
    while n < MAX_SIDES
        invariant
            3 <= n <= MAX_SIDES,
            1 <= radius <= COORD_LIMIT,
            1 <= tolerance,
            spec_side_count(radius as int, tolerance as int) == spec_side_count_from(
                radius as int,
                tolerance as int,
                n as int,
            ),
        decreases MAX_SIDES - n,
    {
        proof {
            lemma_div_pos_is_pos(PI_FIX as int, n as int);
            lemma_div_nonincreasing(PI_FIX as int, n as int);
        }
        let angle: i64 = (PI_FIX as u64 / n as u64) as i64;
        let c: i64 = cos_fixed(angle);
        proof {
            lemma_mul_bounds_abs(
                radius as int,
                (FIX_ONE as int) - c,
                COORD_LIMIT as int,
                0x10000000000000000,
            );
            lemma_mul_bounds_abs(
                tolerance as int,
                FIX_ONE as int,
                0x8000000000000000,
                FIX_ONE as int,
            );
        }
        let err: i128 = (radius as i128) * (FIX_ONE as i128 - c as i128);
        if err <= (tolerance as i128) * (FIX_ONE as i128) {
            return n;
        }
        n += 1;
    }
    n
}

/// The fixed-point angle of ring vertex `i` of an `n`-gon: `i / n`-th of a
/// full turn, rounded down to the fixed-point grid.
pub open spec fn ring_angle(i: int, n: int) -> int {
    (TAU_FIX as int) * i / n
}

/// Ring vertex `i` of an `n`-gon of the given radius: the radius scaled by
/// the fixed-point cosine and sine of the vertex angle, rounded down to
/// the lattice, in the z = 0 plane.
pub open spec fn ring_vertex(radius: int, n: int, i: int) -> Point {
    Point {
        x: ((radius * cos_fix(ring_angle(i, n) as i64)) / (FIX_ONE as int)) as i64,
        y: ((radius * sin_fix(ring_angle(i, n) as i64)) / (FIX_ONE as int)) as i64,
        z: 0,
    }
}

/// The vertex ring of an `n`-gon of the given radius, in angle order.
pub open spec fn spec_ring(radius: int, n: int) -> Seq<Point> {
    Seq::new(n as nat, |i: int| ring_vertex(radius, n, i))
}

/// The angle of ring vertex `i` stays within one full turn.
proof fn lemma_ring_angle_bounds(i: int, n: int)
    requires
        0 <= i < n,
        n <= MAX_SIDES,
    ensures
        0 <= ring_angle(i, n) <= TAU_FIX - 1,
{
    let t = TAU_FIX as int;
    lemma_mul_nonnegative(t, i);
    lemma_div_pos_is_pos(t * i, n);
    lemma_mul_inequality(i, n - 1, t);
    lemma_mul_is_commutative(i, t);
    lemma_mul_is_commutative(n - 1, t);
    lemma_mul_is_distributive_sub_other_way(t, n, 1);
    lemma_mul_is_commutative(n, t);
    lemma_div_is_ordered(t * i, n * t - 1, n);
    lemma_div_multiples_vanish_fancy(t - 1, n - 1, n);
    lemma_mul_is_distributive_sub(n, t, 1);
    assert(n * (t - 1) + (n - 1) == n * t - 1);
}

/// Scale a radius by a fixed-point factor, rounding down: the result is
/// `(radius * c) / 2^32` under Euclidean division.
fn scale_by_fixed(radius: i64, c: i64) -> (r: i64)
    requires
        1 <= radius <= COORD_LIMIT,
    ensures
        r == (radius as int * c as int) / (FIX_ONE as int),
{
    proof {
        lemma_mul_bounds_abs(radius as int, c as int, COORD_LIMIT as int, 0x8000000000000000);
    }
    let p: i128 = radius as i128 * c as i128;
    if p >= 0 {
        let q: u128 = (p as u128) / (FIX_ONE as u128);
        proof {
            lemma_div_is_ordered(p as int, 0x200000000000000000000000, FIX_ONE as int);
            lemma_div_pos_is_pos(p as int, FIX_ONE as int);
        }
        q as i64
    } else {
        let m: u128 = (-p) as u128;
        let q: u128 = (m + (FIX_ONE as u128 - 1)) / (FIX_ONE as u128);
        proof {
            lemma_neg_ceil_div(m as int, FIX_ONE as int);
            lemma_div_is_ordered(
                m as int + (FIX_ONE as int) - 1,
                0x400000000000000000000000,
                FIX_ONE as int,
            );
            lemma_div_pos_is_pos(m as int + (FIX_ONE as int) - 1, FIX_ONE as int);
        }
        let qi: i64 = q as i64;
        -qi
    }
}

/// Compute the vertex ring of an `n`-gon of the given radius: vertex `i`
/// sits at angle `2 * pi * i / n`, at the radius scaled by the fixed-point
/// cosine and sine of that angle.
fn circle_ring(radius: i64, n: usize) -> (r: Vec<Point>)
    requires
        1 <= radius <= COORD_LIMIT,
        3 <= n <= MAX_SIDES,
    ensures
        r@ == spec_ring(radius as int, n as int),
{
    let mut r: Vec<Point> = Vec::new();
    let mut i: usize = 0;
    while i < n
        invariant
            1 <= radius <= COORD_LIMIT,
            3 <= n <= MAX_SIDES,
            i <= n,
            r@.len() == i,
            forall|j: int| 0 <= j < i ==> #[trigger] r@[j] == ring_vertex(radius as int, n as int, j),
        decreases n - i,
    {
        proof {
            lemma_ring_angle_bounds(i as int, n as int);
        }
        let prod: u64 = TAU_FIX as u64 * i as u64;
        let angle: i64 = (prod / n as u64) as i64;
        let c: i64 = cos_fixed(angle);
        let s: i64 = sin_fixed(angle);
        let x: i64 = scale_by_fixed(radius, c);
        let y: i64 = scale_by_fixed(radius, s);
        r.push(Point { x, y, z: 0 });
        i += 1;
    }
    proof {
        assert(r@ =~= spec_ring(radius as int, n as int));
    }
    r
}

/// The fan triangulation of a convex polygon ring: triangle `i` joins
/// vertex 0 with vertices `i + 1` and `i + 2`, so the `n - 2` triangles
/// tile the polygon exactly once, with the ring's winding.
pub open spec fn spec_fan(ring: Seq<Point>) -> Seq<Triangle> {
    Seq::new(
        (ring.len() - 2) as nat,
        |i: int| Triangle { v0: ring[0], v1: ring[i + 1], v2: ring[i + 2] },
    )
}

/// Triangulate a convex polygon ring as a fan around its first vertex.
pub fn fan_triangles(ring: &Vec<Point>) -> (r: Vec<Triangle>)
    requires
        ring@.len() >= 3,
    ensures
        r@ == spec_fan(ring@),
{
    let mut r: Vec<Triangle> = Vec::new();
    let mut i: usize = 0;
    while i < ring.len() - 2
        invariant
            ring@.len() >= 3,
            i <= ring@.len() - 2,
            r@.len() == i,
            forall|j: int|
                0 <= j < i ==> #[trigger] r@[j] == (Triangle {
                    v0: ring@[0],
                    v1: ring@[j + 1],
                    v2: ring@[j + 2],
                }),
        decreases ring@.len() - 2 - i,
    {
        r.push(Triangle { v0: ring[0], v1: ring[i + 1], v2: ring[i + 2] });
        i += 1;
    }
    proof {
        assert(r@ =~= spec_fan(ring@));
    }
    r
}

impl Square {
    /// The square's corners, in winding order, in the z = 0 plane.
    pub open spec fn spec_vertices(self) -> Seq<Point> {
        seq![
            Point { x: 0, y: 0, z: 0 },
            Point { x: self.side, y: 0, z: 0 },
            Point { x: self.side, y: self.side, z: 0 },
            Point { x: 0, y: self.side, z: 0 },
        ]
    }

    /// The square's exact triangulation: its corners `[v0, v1, v2, v3]`
    /// split into the two triangles `(v0, v1, v2)` and `(v0, v2, v3)`.
    pub open spec fn spec_triangles(self) -> Seq<Triangle> {
        seq![
            Triangle {
                v0: self.spec_vertices()[0],
                v1: self.spec_vertices()[1],
                v2: self.spec_vertices()[2],
            },
            Triangle {
                v0: self.spec_vertices()[0],
                v1: self.spec_vertices()[2],
                v2: self.spec_vertices()[3],
            },
        ]
    }

    /// The square's corner vertices, in winding order.
    pub fn vertices(&self) -> (r: Vec<Point>)
        ensures
            r@ == self.spec_vertices(),
    {
        let mut r: Vec<Point> = Vec::new();
        r.push(Point { x: 0, y: 0, z: 0 });
        r.push(Point { x: self.side, y: 0, z: 0 });
        r.push(Point { x: self.side, y: self.side, z: 0 });
        r.push(Point { x: 0, y: self.side, z: 0 });
        proof {
            assert(r@ =~= self.spec_vertices());
        }
        r
    }

    /// Triangulate the square: exactly two triangles covering it once.
    /// The square is exact, so the tolerance is ignored.
    pub fn triangles(&self, _tolerance: i64) -> (r: Vec<Triangle>)
        ensures
            r@ == self.spec_triangles(),
    {
        let v = self.vertices();
        let mut r: Vec<Triangle> = Vec::new();
        r.push(Triangle { v0: v[0], v1: v[1], v2: v[2] });
        r.push(Triangle { v0: v[0], v1: v[2], v2: v[3] });
        proof {
            assert(r@ =~= self.spec_triangles());
        }
        r
    }
}

/// The point set of the first square triangle, `(0, 0)`, `(side, 0)`,
/// `(side, side)`: the points on or below the square's rising diagonal.
pub open spec fn in_lower_square_half(side: int, x: int, y: int) -> bool {
    0 <= y <= x <= side
}

/// The point set of the second square triangle, `(0, 0)`, `(side, side)`,
/// `(0, side)`: the points on or above the square's rising diagonal.
pub open spec fn in_upper_square_half(side: int, x: int, y: int) -> bool {
    0 <= x <= y <= side
}

/// The two triangles of `Square::spec_triangles` tile the square exactly
/// once: together their point sets cover every point of the square, and
/// they overlap only on the shared diagonal edge.
pub proof fn lemma_square_triangles_tile(side: int, x: int, y: int)
    ensures
        (0 <= x <= side && 0 <= y <= side) <==> (in_lower_square_half(side, x, y)
            || in_upper_square_half(side, x, y)),
        in_lower_square_half(side, x, y) && in_upper_square_half(side, x, y) ==> x == y,
{
}

impl Circle {
    /// Triangulate the circle: pick the polygon side count for the
    /// tolerance, place the vertex ring, and fan-triangulate it.
    pub fn triangles(&self, tolerance: i64) -> (r: Vec<Triangle>)
        requires
            self.wf(),
            1 <= tolerance,
        ensures
            r@ == spec_fan(
                spec_ring(
                    self.radius as int,
                    spec_side_count(self.radius as int, tolerance as int),
                ),
            ),
    {
        let ring = self.vertices(tolerance);
        fan_triangles(&ring)
    }

    /// The circle's boundary polygon for the given tolerance: the vertex
    /// ring of the chosen n-gon, in angle order.
    pub fn vertices(&self, tolerance: i64) -> (r: Vec<Point>)
        requires
            self.wf(),
            1 <= tolerance,
        ensures
            r@ == spec_ring(self.radius as int, spec_side_count(self.radius as int, tolerance as int)),
            r@.len() >= 3,
    {
        let n: usize = side_count(self.radius, tolerance);
        circle_ring(self.radius, n)
    }
}

impl Shape2d {
    /// The triangulation a 2D shape evaluates to for a tolerance.
    pub open spec fn spec_triangles(self, tol: int) -> Seq<Triangle> {
        match self {
            Shape2d::Circle(c) => spec_fan(
                spec_ring(c.radius as int, spec_side_count(c.radius as int, tol)),
            ),
            Shape2d::Square(s) => s.spec_triangles(),
        }
    }

    /// The boundary vertices a 2D shape evaluates to for a tolerance: an
    /// ordered, cyclic ring.
    pub open spec fn spec_vertices(self, tol: int) -> Seq<Point> {
        match self {
            Shape2d::Circle(c) => spec_ring(c.radius as int, spec_side_count(c.radius as int, tol)),
            Shape2d::Square(s) => s.spec_vertices(),
        }
    }

    /// Compute triangles to approximate the shape's faces. `tolerance` is
    /// how far the triangulation may deviate from the shape's actual
    /// boundary.
    pub fn triangles(&self, tolerance: i64) -> (r: Vec<Triangle>)
        requires
            self.wf(),
            1 <= tolerance,
        ensures
            r@ == self.spec_triangles(tolerance as int),
    {
        match self {
            Shape2d::Circle(c) => c.triangles(tolerance),
            Shape2d::Square(s) => s.triangles(tolerance),
        }
    }

    /// The shape's boundary as an ordered, cyclic vertex ring.
    pub fn vertices(&self, tolerance: i64) -> (r: Vec<Point>)
        requires
            self.wf(),
            1 <= tolerance,
        ensures
            r@ == self.spec_vertices(tolerance as int),
            r@.len() >= 3,
    {
        match self {
            Shape2d::Circle(c) => c.vertices(tolerance),
            Shape2d::Square(s) => {
                let r = s.vertices();
                r
            },
        }
    }
}

} // verus!
