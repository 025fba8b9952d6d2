//! Triangles: the facets every shape is approximated by, with their
//! winding-sensitive transforms.

use vstd::prelude::*;

use crate::math::Point;
use crate::math::Vector;

verus! {

/// One mesh facet: three ordered points. The traversal order `v0 -> v1 -> v2`
/// determines the facet's outward normal by the right-hand rule. No
/// degeneracy check is made; callers must not hand in collinear or duplicate
/// points.
#[derive(Clone, Copy, Debug, PartialEq, Eq, Structural)]
pub struct Triangle {
    pub v0: Point,
    pub v1: Point,
    pub v2: Point,
}

/// A triangle list, the boundary representation a 3D shape evaluates to.
#[derive(Debug)]
pub struct Faces(pub Vec<Triangle>);

impl Triangle {
    pub fn new(v0: Point, v1: Point, v2: Point) -> (t: Triangle)
        ensures
            t == (Triangle { v0, v1, v2 }),
    {
        Triangle { v0, v1, v2 }
    }

    /// The same triangle with its winding reversed: the second and third
    /// vertices swap places, which flips the outward normal.
    pub open spec fn spec_invert(self) -> Triangle {
        Triangle { v0: self.v0, v1: self.v2, v2: self.v1 }
    }

    /// Invert the triangle: reverse the order of its vertices, flipping the
    /// direction its normal points in.
    pub fn invert(self) -> (r: Triangle)
        ensures
            r == self.spec_invert(),
    {
        Triangle { v0: self.v0, v1: self.v2, v2: self.v1 }
    }

    /// Holds when `r` is `self` with every vertex displaced by `v`.
    pub open spec fn is_translation_by(self, v: Vector, r: Triangle) -> bool {
        &&& r.v0.x == self.v0.x + v.x && r.v0.y == self.v0.y + v.y && r.v0.z == self.v0.z + v.z
        &&& r.v1.x == self.v1.x + v.x && r.v1.y == self.v1.y + v.y && r.v1.z == self.v1.z + v.z
        &&& r.v2.x == self.v2.x + v.x && r.v2.y == self.v2.y + v.y && r.v2.z == self.v2.z + v.z
    }

    /// Every displaced coordinate stays on the lattice, i.e. fits the
    /// kernel's integer coordinates.
    pub open spec fn can_translate(self, v: Vector) -> bool {
        &&& i64::MIN <= self.v0.x + v.x <= i64::MAX
        &&& i64::MIN <= self.v0.y + v.y <= i64::MAX
        &&& i64::MIN <= self.v0.z + v.z <= i64::MAX
        &&& i64::MIN <= self.v1.x + v.x <= i64::MAX
        &&& i64::MIN <= self.v1.y + v.y <= i64::MAX
        &&& i64::MIN <= self.v1.z + v.z <= i64::MAX
        &&& i64::MIN <= self.v2.x + v.x <= i64::MAX
        &&& i64::MIN <= self.v2.y + v.y <= i64::MAX
        &&& i64::MIN <= self.v2.z + v.z <= i64::MAX
    }

    /// Translate the triangle: displace all three vertices by `v`.
    pub fn translate(self, v: Vector) -> (r: Triangle)
        requires
            self.can_translate(v),
        ensures
            self.is_translation_by(v, r),
    {
        Triangle {
            v0: Point { x: self.v0.x + v.x, y: self.v0.y + v.y, z: self.v0.z + v.z },
            v1: Point { x: self.v1.x + v.x, y: self.v1.y + v.y, z: self.v1.z + v.z },
            v2: Point { x: self.v2.x + v.x, y: self.v2.y + v.y, z: self.v2.z + v.z },
        }
    }
}

/// Inverting a triangle is its own inverse: doing it twice restores the
/// original vertex order, for every triangle.
pub proof fn lemma_invert_involutive(t: Triangle)
    ensures
        t.spec_invert().spec_invert() == t,
{
}

/// Translating by a vector and then by its negation restores the original
/// vertices, for every triangle and every displacement that stays on the
/// lattice.
pub proof fn lemma_translate_round_trip(t: Triangle, v: Vector, w: Vector, t1: Triangle, t2: Triangle)
    requires
        t.is_translation_by(v, t1),
        v.is_negation_of(w),
        t1.is_translation_by(w, t2),
    ensures
        t2 == t,
{
}

} // verus!
