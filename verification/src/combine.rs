//! The 3D layer: sweeping a 2D shape into a solid, and combining solids
//! under boolean operations, together with their bounding volumes.

use vstd::prelude::*;

use vstd::arithmetic::div_mod::lemma_div_multiples_vanish_fancy;
use vstd::arithmetic::div_mod::lemma_fundamental_div_mod;
use vstd::arithmetic::div_mod::lemma_mod_multiples_basic;
use vstd::arithmetic::div_mod::lemma_mod_self_0;
use vstd::arithmetic::div_mod::lemma_small_mod;
use vstd::arithmetic::mul::lemma_mul_is_commutative;

use crate::faces::Faces;
use crate::faces::Triangle;
use crate::math::Aabb;
use crate::math::Point;
use crate::math::Vector;
use crate::shape::Shape;
use crate::shape::Shape2d;
use crate::shape::Shape3d;
use crate::shape::Sweep;
use crate::shape::Union;
use crate::triangulate::lemma_side_count_bounds;
use crate::COORD_LIMIT;

verus! {

/// The kernel's error values. A capability that is declared but not
/// populated fails loudly with `NotImplemented` instead of silently
/// returning wrong data.
#[derive(Clone, Copy, Debug, PartialEq, Eq, Structural)]
pub enum Error {
    NotImplemented,
}

/// A triangle list is planar when every vertex of every triangle lies in
/// the z = 0 plane, as the triangulation of every 2D shape does.
pub open spec fn tris_planar(s: Seq<Triangle>) -> bool {
    forall|i: int|
        0 <= i < s.len() ==> (#[trigger] s[i]).v0.z == 0 && s[i].v1.z == 0 && s[i].v2.z == 0
}

/// A vertex ring is planar when every vertex lies in the z = 0 plane.
pub open spec fn ring_planar(s: Seq<Point>) -> bool {
    forall|i: int| 0 <= i < s.len() ==> (#[trigger] s[i]).z == 0
}

/// Every 2D shape triangulates into the z = 0 plane, and its boundary ring
/// lies there too and has at least 3 vertices.
pub proof fn lemma_shape2d_planar(s: Shape2d, tol: int)
    ensures
        tris_planar(s.spec_triangles(tol)),
        ring_planar(s.spec_vertices(tol)),
        s.spec_vertices(tol).len() >= 3,
{
    match s {
        Shape2d::Circle(c) => {
            lemma_side_count_bounds(c.radius as int, tol, 3);
        },
        Shape2d::Square(_) => {
        },
    }
}

/// The point displaced straight up by the sweep length.
pub open spec fn spec_lift_point(p: Point, length: int) -> Point {
    Point { x: p.x, y: p.y, z: (p.z + length) as i64 }
}

/// The triangle displaced straight up by the sweep length, winding
/// unchanged.
pub open spec fn spec_lift_triangle(t: Triangle, length: int) -> Triangle {
    Triangle {
        v0: spec_lift_point(t.v0, length),
        v1: spec_lift_point(t.v1, length),
        v2: spec_lift_point(t.v2, length),
    }
}

/// The lower triangle of side quad `j` of a sweep: the quad between
/// boundary vertices `j` and `j + 1` (wrapping at the ring's end) and
/// their lifted copies, split along its diagonal.
pub open spec fn side_quad_lower(ring: Seq<Point>, length: int, j: int) -> Triangle {
    Triangle {
        v0: ring[j],
        v1: ring[(j + 1) % (ring.len() as int)],
        v2: spec_lift_point(ring[(j + 1) % (ring.len() as int)], length),
    }
}

/// The upper triangle of side quad `j` of a sweep.
pub open spec fn side_quad_upper(ring: Seq<Point>, length: int, j: int) -> Triangle {
    Triangle {
        v0: ring[j],
        v1: spec_lift_point(ring[(j + 1) % (ring.len() as int)], length),
        v2: spec_lift_point(ring[j], length),
    }
}

/// The complete sweep mesh: the base triangles inverted (bottom face,
/// normals pointing down), the base triangles lifted by the length (top
/// face, normals pointing up), and two side triangles per boundary edge,
/// including the closing edge from the last ring vertex back to the first.
pub open spec fn spec_sweep(base: Seq<Triangle>, ring: Seq<Point>, length: int) -> Seq<Triangle> {
    Seq::new(base.len(), |i: int| base[i].spec_invert()) + Seq::new(
        base.len(),
        |i: int| spec_lift_triangle(base[i], length),
    ) + Seq::new(
        (2 * ring.len()) as nat,
        |k: int|
            if k % 2 == 0 {
                side_quad_lower(ring, length, k / 2)
            } else {
                side_quad_upper(ring, length, k / 2)
            },
    )
}

/// A sweep produces two triangles per base triangle and two per boundary
/// vertex: bottom face, top face, and one quad per boundary edge.
pub proof fn lemma_sweep_triangle_count(base: Seq<Triangle>, ring: Seq<Point>, length: int)
    ensures
        spec_sweep(base, ring, length).len() == 2 * base.len() + 2 * ring.len(),
{
}

/// Assemble the mesh of a sweep from its base's triangulation and boundary
/// ring: inverted bottom face, lifted top face, and the side wall quads,
/// with the closing quad between the last and first boundary vertex.
pub fn sweep_triangles(base: &Vec<Triangle>, ring: &Vec<Point>, length: i64) -> (r: Vec<Triangle>)
    requires
        tris_planar(base@),
        ring_planar(ring@),
        ring@.len() >= 1,
        1 <= length <= COORD_LIMIT,
    ensures
        r@ == spec_sweep(base@, ring@, length as int),
{
    let mut r: Vec<Triangle> = Vec::new();
    let mut i: usize = 0;
    while i < base.len()
        invariant
            i <= base@.len(),
            r@.len() == i,
            forall|j: int| 0 <= j < i ==> #[trigger] r@[j] == base@[j].spec_invert(),
        decreases base@.len() - i,
    {
        r.push(base[i].invert());
        i += 1;
    }
    let mut i2: usize = 0;
    while i2 < base.len()
        invariant
            tris_planar(base@),
            1 <= length <= COORD_LIMIT,
            i2 <= base@.len(),
            r@.len() == base@.len() + i2,
            forall|j: int| 0 <= j < base@.len() ==> #[trigger] r@[j] == base@[j].spec_invert(),
            forall|j: int|
                0 <= j < i2 ==> #[trigger] r@[base@.len() + j] == spec_lift_triangle(
                    base@[j],
                    length as int,
                ),
        decreases base@.len() - i2,
    {
        let t = base[i2];
        let lifted = t.translate(Vector { x: 0, y: 0, z: length });
        r.push(lifted);
        i2 += 1;
    }
    let n: usize = ring.len();
    let mut j: usize = 0;
    while j < n
        invariant
            ring_planar(ring@),
            n == ring@.len(),
            n >= 1,
            1 <= length <= COORD_LIMIT,
            j <= n,
            r@.len() == 2 * base@.len() + 2 * j,
            forall|p: int| 0 <= p < base@.len() ==> #[trigger] r@[p] == base@[p].spec_invert(),
            forall|p: int|
                0 <= p < base@.len() ==> #[trigger] r@[base@.len() + p] == spec_lift_triangle(
                    base@[p],
                    length as int,
                ),
            forall|k: int|
                0 <= k < 2 * j ==> #[trigger] r@[2 * base@.len() + k] == (if k % 2 == 0 {
                    side_quad_lower(ring@, length as int, k / 2)
                } else {
                    side_quad_upper(ring@, length as int, k / 2)
                }),
        decreases n - j,
    {
        let jn: usize = if j + 1 == n {
            0
        } else {
            j + 1
        };
        proof {
            if j + 1 == n {
                lemma_mod_self_0(n as int);
            } else {
                lemma_small_mod((j + 1) as nat, n as nat);
            }
            lemma_div_multiples_vanish_fancy(j as int, 0, 2);
            lemma_div_multiples_vanish_fancy(j as int, 1, 2);
            lemma_mod_multiples_basic(j as int, 2);
            lemma_mul_is_commutative(2, j as int);
            lemma_fundamental_div_mod(2 * (j as int) + 1, 2);
        }
        let b0 = ring[j];
        let b1 = ring[jn];
        let t0 = Point { x: b0.x, y: b0.y, z: b0.z + length };
        let t1 = Point { x: b1.x, y: b1.y, z: b1.z + length };
        r.push(Triangle { v0: b0, v1: b1, v2: t1 });
        r.push(Triangle { v0: b0, v1: t1, v2: t0 });
        j += 1;
    }
    proof {
        let bl = base@.len() as int;
        let sw = spec_sweep(base@, ring@, length as int);
        assert forall|k: int| 0 <= k < r@.len() implies r@[k] == sw[k] by {
            if k < bl {
                assert(r@[k] == base@[k].spec_invert());
            } else if k < 2 * bl {
                let p = k - bl;
                assert(r@[base@.len() + p] == spec_lift_triangle(base@[p], length as int));
            } else {
                let p = k - 2 * bl;
                assert(r@[2 * base@.len() + p] == (if p % 2 == 0 {
                    side_quad_lower(ring@, length as int, p / 2)
                } else {
                    side_quad_upper(ring@, length as int, p / 2)
                }));
            }
        }
        assert(r@ =~= sw);
    }
    r
}

impl Sweep {
    /// The mesh a sweep evaluates to: its base's triangulation extruded
    /// along the z axis by its length.
    pub open spec fn spec_triangles(self, tol: int) -> Seq<Triangle> {
        spec_sweep(
            self.shape.spec_triangles(tol),
            self.shape.spec_vertices(tol),
            self.length as int,
        )
    }

    /// Extrude the base shape's triangulation along the z axis. The
    /// tolerance is forwarded unchanged to the base shape.
    pub fn triangles(&self, tolerance: i64) -> (r: Vec<Triangle>)
        requires
            self.wf(),
            1 <= tolerance,
        ensures
            r@ == self.spec_triangles(tolerance as int),
    {
        let base = self.shape.triangles(tolerance);
        let ring = self.shape.vertices(tolerance);
        proof {
            lemma_shape2d_planar(self.shape, tolerance as int);
        }
        sweep_triangles(&base, &ring, self.length)
    }
}

/// The axis-aligned extent a shape evaluates to, as unbounded integers:
/// the mathematical form of its bounding volume.
pub struct Extent {
    pub min_x: int,
    pub min_y: int,
    pub min_z: int,
    pub max_x: int,
    pub max_y: int,
    pub max_z: int,
}

/// The extent that contains two extents: component-wise minimum of the
/// minima and maximum of the maxima.
pub open spec fn merge_extent(a: Extent, b: Extent) -> Extent {
    Extent {
        min_x: if a.min_x <= b.min_x {
            a.min_x
        } else {
            b.min_x
        },
        min_y: if a.min_y <= b.min_y {
            a.min_y
        } else {
            b.min_y
        },
        min_z: if a.min_z <= b.min_z {
            a.min_z
        } else {
            b.min_z
        },
        max_x: if a.max_x >= b.max_x {
            a.max_x
        } else {
            b.max_x
        },
        max_y: if a.max_y >= b.max_y {
            a.max_y
        } else {
            b.max_y
        },
        max_z: if a.max_z >= b.max_z {
            a.max_z
        } else {
            b.max_z
        },
    }
}

/// Holds when the box `r` has exactly the extent `e`.
pub open spec fn aabb_matches(r: Aabb, e: Extent) -> bool {
    &&& r.min.x == e.min_x && r.min.y == e.min_y && r.min.z == e.min_z
    &&& r.max.x == e.max_x && r.max.y == e.max_y && r.max.z == e.max_z
}

impl Shape2d {
    /// The extent of a 2D shape, in the z = 0 plane: a circle reaches one
    /// radius from the origin on both planar axes, a square spans its side
    /// from the origin.
    pub open spec fn spec_extent(self) -> Extent {
        match self {
            Shape2d::Circle(c) => Extent {
                min_x: -c.radius,
                min_y: -c.radius,
                min_z: 0,
                max_x: c.radius as int,
                max_y: c.radius as int,
                max_z: 0,
            },
            Shape2d::Square(s) => Extent {
                min_x: 0,
                min_y: 0,
                min_z: 0,
                max_x: s.side as int,
                max_y: s.side as int,
                max_z: 0,
            },
        }
    }

    /// The shape's axis-aligned bounding box.
    pub fn bounding_volume(&self) -> (r: Aabb)
        requires
            self.wf(),
        ensures
            aabb_matches(r, self.spec_extent()),
            r.wf(),
    {
        match self {
            Shape2d::Circle(c) => Aabb {
                min: Point { x: -c.radius, y: -c.radius, z: 0 },
                max: Point { x: c.radius, y: c.radius, z: 0 },
            },
            Shape2d::Square(s) => Aabb {
                min: Point { x: 0, y: 0, z: 0 },
                max: Point { x: s.side, y: s.side, z: 0 },
            },
        }
    }
}

impl Shape3d {
    /// The mesh a 3D shape evaluates to: a sweep's extrusion, or the
    /// concatenation of the two sides of a union.
    pub open spec fn spec_faces(self, tol: int) -> Seq<Triangle>
        decreases self,
    {
        match self {
            Shape3d::Sweep(sw) => sw.spec_triangles(tol),
            Shape3d::Union(u) => (*u.a).spec_faces(tol) + (*u.b).spec_faces(tol),
        }
    }

    /// The extent of a 3D shape: its base extent stretched up by the sweep
    /// length, or the merge of the two sides of a union.
    pub open spec fn spec_extent(self) -> Extent
        decreases self,
    {
        match self {
            Shape3d::Sweep(sw) => {
                let b = sw.shape.spec_extent();
                Extent {
                    min_x: b.min_x,
                    min_y: b.min_y,
                    min_z: b.min_z,
                    max_x: b.max_x,
                    max_y: b.max_y,
                    max_z: b.max_z + sw.length,
                }
            },
            Shape3d::Union(u) => merge_extent((*u.a).spec_extent(), (*u.b).spec_extent()),
        }
    }

    /// The shape's boundary mesh, within the given tolerance.
    pub fn faces(&self, tolerance: i64) -> (r: Faces)
        requires
            self.wf(),
            1 <= tolerance,
        ensures
            r.0@ == self.spec_faces(tolerance as int),
        decreases *self,
    {
        match self {
            Shape3d::Sweep(sw) => Faces(sw.triangles(tolerance)),
            Shape3d::Union(u) => u.faces(tolerance),
        }
    }

    /// Compute triangles to approximate the shape's faces, as a flat list.
    pub fn triangles(&self, tolerance: i64) -> (r: Vec<Triangle>)
        requires
            self.wf(),
            1 <= tolerance,
        ensures
            r@ == self.spec_faces(tolerance as int),
    {
        let f = self.faces(tolerance);
        f.0
    }

    /// The shape's axis-aligned bounding box.
    pub fn bounding_volume(&self) -> (r: Aabb)
        requires
            self.wf(),
        ensures
            aabb_matches(r, self.spec_extent()),
        decreases *self,
    {
        match self {
            Shape3d::Sweep(sw) => {
                let base = sw.shape.bounding_volume();
                Aabb {
                    min: base.min,
                    max: Point { x: base.max.x, y: base.max.y, z: base.max.z + sw.length },
                }
            },
            Shape3d::Union(u) => u.bounding_volume(),
        }
    }
}

impl Union {
    /// A union is well-formed when both of its sides are.
    pub open spec fn wf(self) -> bool {
        (*self.a).wf() && (*self.b).wf()
    }

    /// The bounding volume of the union: the merge of its sides' bounding
    /// volumes.
    pub fn bounding_volume(&self) -> (r: Aabb)
        requires
            self.wf(),
        ensures
            aabb_matches(r, merge_extent((*self.a).spec_extent(), (*self.b).spec_extent())),
        decreases *self,
    {
        let a = self.a.bounding_volume();
        let b = self.b.bounding_volume();
        a.merged(&b)
    }

    /// The faces of the union: the two sides' faces, concatenated.
    ///
    /// This is not a true boolean union: no faces are eliminated, merged
    /// or split at the seam. The mesh is only valid when the two sides do
    /// not overlap; overlapping sides leave interior geometry in place.
    pub fn faces(&self, tolerance: i64) -> (r: Faces)
        requires
            self.wf(),
            1 <= tolerance,
        ensures
            r.0@ == (*self.a).spec_faces(tolerance as int) + (*self.b).spec_faces(tolerance as int),
        decreases *self,
    {
        let fa = self.a.faces(tolerance);
        let fb = self.b.faces(tolerance);
        let mut v = fa.0;
        let mut vb = fb.0;
        v.append(&mut vb);
        Faces(v)
    }

    /// The union's boundary edges. Not populated for compound shapes:
    /// this fails loudly instead of returning incorrect data.
    pub fn edges(&self) -> (r: Result<Vec<(Point, Point)>, Error>)
        ensures
            r == Result::<Vec<(Point, Point)>, Error>::Err(Error::NotImplemented),
    {
        Err(Error::NotImplemented)
    }

    /// The union's boundary vertices. Not populated for compound shapes:
    /// this fails loudly instead of returning incorrect data.
    pub fn vertices(&self) -> (r: Result<Vec<Point>, Error>)
        ensures
            r == Result::<Vec<Point>, Error>::Err(Error::NotImplemented),
    {
        Err(Error::NotImplemented)
    }
}

impl Shape {
    /// The mesh any shape of the tree evaluates to.
    pub open spec fn spec_triangles(self, tol: int) -> Seq<Triangle> {
        match self {
            Shape::Shape2d(s) => s.spec_triangles(tol),
            Shape::Shape3d(s) => s.spec_faces(tol),
        }
    }

    /// Compute triangles to approximate the shape's faces, within the
    /// given tolerance.
    pub fn triangles(&self, tolerance: i64) -> (r: Vec<Triangle>)
        requires
            self.wf(),
            1 <= tolerance,
        ensures
            r@ == self.spec_triangles(tolerance as int),
    {
        match self {
            Shape::Shape2d(s) => s.triangles(tolerance),
            Shape::Shape3d(s) => s.triangles(tolerance),
        }
    }
}

} // verus!
