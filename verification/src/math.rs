//! Points, vectors and axis-aligned bounding boxes on the integer lattice.

use vstd::prelude::*;

verus! {

/// A point in 3D space, with coordinates in lattice units.
#[derive(Clone, Copy, Debug, PartialEq, Eq, Structural)]
pub struct Point {
    pub x: i64,
    pub y: i64,
    pub z: i64,
}

impl Point {
    pub fn new(x: i64, y: i64, z: i64) -> (p: Point)
        ensures
            p == (Point { x, y, z }),
    {
        Point { x, y, z }
    }
}

/// A displacement in 3D space, with components in lattice units.
#[derive(Clone, Copy, Debug, PartialEq, Eq, Structural)]
pub struct Vector {
    pub x: i64,
    pub y: i64,
    pub z: i64,
}

impl Vector {
    pub fn new(x: i64, y: i64, z: i64) -> (v: Vector)
        ensures
            v == (Vector { x, y, z }),
    {
        Vector { x, y, z }
    }

    /// Holds when `w` points exactly opposite to `v`.
    pub open spec fn is_negation_of(self, w: Vector) -> bool {
        w.x == -self.x && w.y == -self.y && w.z == -self.z
    }

    /// The opposite displacement.
    pub fn neg(self) -> (w: Vector)
        requires
            self.x != i64::MIN,
            self.y != i64::MIN,
            self.z != i64::MIN,
        ensures
            self.is_negation_of(w),
    {
        Vector { x: -self.x, y: -self.y, z: -self.z }
    }
}

/// An axis-aligned bounding box, given by its two extreme corners.
#[derive(Clone, Copy, Debug, PartialEq, Eq, Structural)]
pub struct Aabb {
    pub min: Point,
    pub max: Point,
}

impl Aabb {
    /// A box is well-formed when its corners are ordered component-wise.
    pub open spec fn wf(self) -> bool {
        self.min.x <= self.max.x && self.min.y <= self.max.y && self.min.z <= self.max.z
    }

    /// The smallest box that contains both `self` and `other`:
    /// component-wise minimum of the minima, maximum of the maxima.
    pub fn merged(&self, other: &Aabb) -> (r: Aabb)
        ensures
            r.min.x == if self.min.x <= other.min.x { self.min.x } else { other.min.x },
            r.min.y == if self.min.y <= other.min.y { self.min.y } else { other.min.y },
            r.min.z == if self.min.z <= other.min.z { self.min.z } else { other.min.z },
            r.max.x == if self.max.x >= other.max.x { self.max.x } else { other.max.x },
            r.max.y == if self.max.y >= other.max.y { self.max.y } else { other.max.y },
            r.max.z == if self.max.z >= other.max.z { self.max.z } else { other.max.z },
            self.wf() && other.wf() ==> r.wf(),
    {
        Aabb {
            min: Point {
                x: lesser(self.min.x, other.min.x),
                y: lesser(self.min.y, other.min.y),
                z: lesser(self.min.z, other.min.z),
            },
            max: Point {
                x: greater(self.max.x, other.max.x),
                y: greater(self.max.y, other.max.y),
                z: greater(self.max.z, other.max.z),
            },
        }
    }
}

/// The smaller of two lattice coordinates.
fn lesser(a: i64, b: i64) -> (r: i64)
    ensures
        r == if a <= b { a } else { b },
{
    if a <= b {
        a
    } else {
        b
    }
}

/// The larger of two lattice coordinates.
fn greater(a: i64, b: i64) -> (r: i64)
    ensures
        r == if a >= b { a } else { b },
{
    if a >= b {
        a
    } else {
        b
    }
}

} // verus!
