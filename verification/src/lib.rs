//! An exact geometry kernel for triangulating parametric solid models and
//! for laying out uniform sampling grids for isosurface extraction.
//!
//! All coordinates live on an integer lattice: the host chooses a base unit
//! and hands every length to the kernel as a whole number of units. This
//! keeps every operation in the kernel exact, so that its contracts can pin
//! the produced meshes and grids down completely. Converting between the
//! host's floating-point space and the lattice is the host's concern.

use vstd::prelude::*;

pub mod combine;
pub mod faces;
pub mod grid;
pub mod math;
pub mod shape;
pub mod triangulate;
pub mod trig;

verus! {

/// The largest magnitude, in lattice units, that a shape dimension or a
/// bounding-box coordinate handed to the kernel may have. Keeping inputs
/// inside this bound guarantees that every intermediate value the kernel
/// computes fits in its integer types.
pub const COORD_LIMIT: i64 = 1073741824;

} // verus!
