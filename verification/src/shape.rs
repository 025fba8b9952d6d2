//! The shape tree: a closed tagged union of 2D primitives and the 3D
//! operations built from them. A shape is immutable once constructed, and
//! triangulation is a pure function of the shape and a tolerance.

use vstd::prelude::*;

use crate::COORD_LIMIT;

verus! {

/// A circle, given by its radius in lattice units.
#[derive(Clone, Copy, Debug, PartialEq, Eq, Structural)]
pub struct Circle {
    pub radius: i64,
}

/// A square, given by its side length in lattice units. Its corners sit at
/// `(0, 0)`, `(side, 0)`, `(side, side)` and `(0, side)` in the z = 0
/// plane.
#[derive(Clone, Copy, Debug, PartialEq, Eq, Structural)]
pub struct Square {
    pub side: i64,
}

/// A 2D shape: a leaf of the shape tree, triangulated directly.
#[derive(Clone, Copy, Debug, PartialEq, Eq, Structural)]
pub enum Shape2d {
    Circle(Circle),
    Square(Square),
}

/// An extrusion of a 2D base shape along the z axis by `length`.
#[derive(Clone, Debug, PartialEq)]
pub struct Sweep {
    pub shape: Shape2d,
    pub length: i64,
}

/// The union of two 3D shapes. The combination is approximate: the merged
/// mesh is only valid when the two shapes do not overlap (see
/// `Union::faces`).
#[derive(Debug)]
pub struct Union {
    pub a: Box<Shape3d>,
    pub b: Box<Shape3d>,
}

/// A 3D shape: an extrusion, or a boolean combination of 3D shapes.
#[derive(Debug)]
pub enum Shape3d {
    Sweep(Sweep),
    Union(Union),
}

/// Any shape of the tree, 2D or 3D.
#[derive(Debug)]
pub enum Shape {
    Shape2d(Shape2d),
    Shape3d(Shape3d),
}

impl Circle {
    /// A circle is well-formed when its radius is positive and within the
    /// kernel's coordinate bound.
    pub open spec fn wf(self) -> bool {
        1 <= self.radius <= COORD_LIMIT
    }
}

impl Square {
    /// A square is well-formed when its side is positive and within the
    /// kernel's coordinate bound.
    pub open spec fn wf(self) -> bool {
        1 <= self.side <= COORD_LIMIT
    }
}

impl Shape2d {
    pub open spec fn wf(self) -> bool {
        match self {
            Shape2d::Circle(c) => c.wf(),
            Shape2d::Square(s) => s.wf(),
        }
    }
}

impl Sweep {
    pub open spec fn wf(self) -> bool {
        self.shape.wf() && 1 <= self.length <= COORD_LIMIT
    }
}

impl Shape3d {
    pub open spec fn wf(self) -> bool
        decreases self,
    {
        match self {
            Shape3d::Sweep(sw) => sw.wf(),
            Shape3d::Union(u) => (*u.a).wf() && (*u.b).wf(),
        }
    }
}

impl Shape {
    pub open spec fn wf(self) -> bool {
        match self {
            Shape::Shape2d(s) => s.wf(),
            Shape::Shape3d(s) => s.wf(),
        }
    }
}

} // verus!
