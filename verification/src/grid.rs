//! A uniform sampling grid for isosurface extraction.
//!
//! Given a bounding box and a resolution, the grid covers the box with
//! uniformly laid out cells and overshoots it by one cell on every side, so
//! that the centers of the outermost cells lie outside of, or exactly on,
//! the box.
//!
//! Grid positions sit halfway between lattice points: vertex 0 lies half a
//! resolution below the box's minimum. To keep them exact, every grid
//! position is returned in *half-units*: twice the coordinate, measured in
//! the same lattice units as the bounding box.

use vstd::prelude::*;

use vstd::arithmetic::div_mod::lemma_div_is_ordered;
use vstd::arithmetic::div_mod::lemma_div_multiples_vanish_fancy;
use vstd::arithmetic::div_mod::lemma_div_pos_is_pos;
use vstd::arithmetic::div_mod::lemma_fundamental_div_mod;
use vstd::arithmetic::div_mod::lemma_mod_division_less_than_divisor;
use vstd::arithmetic::div_mod::lemma_mod_mod;
use vstd::arithmetic::mul::lemma_mul_inequality;
use vstd::arithmetic::mul::lemma_mul_is_associative;
use vstd::arithmetic::mul::lemma_mul_is_commutative;
use vstd::arithmetic::mul::lemma_mul_is_distributive_add_other_way;
use vstd::arithmetic::mul::lemma_mul_is_distributive_sub;
use vstd::arithmetic::mul::lemma_mul_nonnegative;
use vstd::arithmetic::mul::lemma_mul_strictly_positive;

use crate::math::Aabb;
use crate::math::Point;
use crate::COORD_LIMIT;

verus! {

/// The index of a lattice point within the grid: a triple of non-negative
/// integers, ordered x, y, z.
#[derive(Clone, Copy, Debug, Hash, PartialEq, Eq, Structural)]
pub struct Index {
    pub x: usize,
    pub y: usize,
    pub z: usize,
}

/// The number of cell indices along one axis: the cells cover the span
/// `max - min` and overshoot it by one on the upper side.
pub open spec fn spec_cell_count(min: int, max: int, res: int) -> int {
    (max - min + res - 1) / res + 1
}

/// The number of vertex indices along one axis: a row of `n` cells has
/// `n + 1` vertices.
pub open spec fn spec_vertex_count(min: int, max: int, res: int) -> int {
    (max - min + res - 1) / res + 2
}

/// The position of grid index `i` along one axis, in half-units: vertex 0
/// sits half a resolution below the box minimum, and consecutive vertices
/// are one resolution apart. Dividing by two gives the coordinate
/// `i * res + min - res / 2` in lattice units.
pub open spec fn spec_position2(i: int, min: int, res: int) -> int {
    2 * i * res + 2 * min - res
}

impl Index {
    pub fn new(x: usize, y: usize, z: usize) -> (r: Index)
        ensures
            r == (Index { x, y, z }),
    {
        Index { x, y, z }
    }

    /// The x component of the index.
    pub fn x(&self) -> (r: usize)
        ensures
            r == self.x,
    {
        self.x
    }

    /// The y component of the index.
    pub fn y(&self) -> (r: usize)
        ensures
            r == self.y,
    {
        self.y
    }

    /// The z component of the index.
    pub fn z(&self) -> (r: usize)
        ensures
            r == self.z,
    {
        self.z
    }

    /// Displace the index by a signed offset, addressing a neighboring
    /// lattice point. An offset that would take a component below zero or
    /// beyond the machine's range is a programming error and is ruled out
    /// here rather than detected at run time.
    pub fn translate(self, dx: isize, dy: isize, dz: isize) -> (r: Index)
        requires
            0 <= self.x + dx <= usize::MAX,
            0 <= self.y + dy <= usize::MAX,
            0 <= self.z + dz <= usize::MAX,
        ensures
            r.x == self.x + dx,
            r.y == self.y + dy,
            r.z == self.z + dz,
    {
        Index {
            x: (self.x as i128 + dx as i128) as usize,
            y: (self.y as i128 + dy as i128) as usize,
            z: (self.z as i128 + dz as i128) as usize,
        }
    }

    /// Convert the index into a position within the grid, in half-units
    /// (twice the coordinate), from the grid's minimum point and its
    /// resolution.
    pub fn to_position(self, min: Point, resolution: i64) -> (p: Point)
        requires
            1 <= resolution <= COORD_LIMIT,
            -COORD_LIMIT <= min.x <= COORD_LIMIT,
            -COORD_LIMIT <= min.y <= COORD_LIMIT,
            -COORD_LIMIT <= min.z <= COORD_LIMIT,
            self.x * resolution <= COORD_LIMIT * COORD_LIMIT,
            self.y * resolution <= COORD_LIMIT * COORD_LIMIT,
            self.z * resolution <= COORD_LIMIT * COORD_LIMIT,
        ensures
            p.x == spec_position2(self.x as int, min.x as int, resolution as int),
            p.y == spec_position2(self.y as int, min.y as int, resolution as int),
            p.z == spec_position2(self.z as int, min.z as int, resolution as int),
    {
        Point {
            x: index_to_coordinate2(self.x, min.x, resolution),
            y: index_to_coordinate2(self.y, min.y, resolution),
            z: index_to_coordinate2(self.z, min.z, resolution),
        }
    }
}

/// One axis of `Index::to_position`: the position of index `i`, in
/// half-units.
fn index_to_coordinate2(i: usize, min: i64, resolution: i64) -> (c: i64)
    requires
        1 <= resolution <= COORD_LIMIT,
        -COORD_LIMIT <= min <= COORD_LIMIT,
        i * resolution <= COORD_LIMIT * COORD_LIMIT,
    ensures
        c == spec_position2(i as int, min as int, resolution as int),
{
    proof {
        lemma_mul_nonnegative(i as int, resolution as int);
        lemma_mul_is_associative(2, i as int, resolution as int);
    }
    let step: i128 = i as i128 * resolution as i128;
    (2 * step + 2 * min as i128 - resolution as i128) as i64
}

/// The number of cell indices along one axis; the indices range over
/// `[0, n)`. The count is `ceil((max - min) / resolution) + 1`, so the grid
/// extends one cell beyond the box on the upper side.
pub fn cell_indices(min: i64, max: i64, resolution: i64) -> (n: usize)
    requires
        1 <= resolution <= COORD_LIMIT,
        -COORD_LIMIT <= min <= max <= COORD_LIMIT,
    ensures
        n == spec_cell_count(min as int, max as int, resolution as int),
        1 <= n <= 2 * COORD_LIMIT + 1,
{
    proof {
        lemma_ceil_div_bounds(max as int - min as int, resolution as int);
    }
    ((max - min + resolution - 1) / resolution + 1) as usize
}

/// The number of vertex indices along one axis: one more than the cell
/// count, since a row of `n` cells has `n + 1` vertices.
pub fn vertex_indices(min: i64, max: i64, resolution: i64) -> (n: usize)
    requires
        1 <= resolution <= COORD_LIMIT,
        -COORD_LIMIT <= min <= max <= COORD_LIMIT,
    ensures
        n == spec_vertex_count(min as int, max as int, resolution as int),
        2 <= n <= 2 * COORD_LIMIT + 2,
{
    proof {
        lemma_ceil_div_bounds(max as int - min as int, resolution as int);
    }
    ((max - min + resolution - 1) / resolution + 2) as usize
}

/// The rounded-up quotient `ceil(span / res)`, written as
/// `(span + res - 1) / res`, lies between zero and the span itself.
proof fn lemma_ceil_div_bounds(span: int, res: int)
    requires
        0 <= span,
        1 <= res,
    ensures
        0 <= (span + res - 1) / res <= span,
{
    lemma_div_pos_is_pos(span + res - 1, res);
    lemma_mul_inequality(1, res, span);
    assert(1 * span == span) by (nonlinear_arith);
    assert(res * span == span * res) by (nonlinear_arith);
    lemma_div_multiples_vanish_fancy(span, res - 1, res);
    lemma_div_is_ordered(span + res - 1, res * span + res - 1, res);
}

/// Along each axis, the grid has exactly one more vertex than it has
/// cells, for the same box and resolution.
pub proof fn lemma_vertex_count_is_cell_count_plus_one(min: int, max: int, res: int)
    ensures
        spec_vertex_count(min, max, res) == spec_cell_count(min, max, res) + 1,
{
}

/// One grid cell: the index of its minimum corner, and that corner's
/// position in half-units.
#[derive(Clone, Copy, Debug, PartialEq, Eq, Structural)]
pub struct Cell {
    pub min_index: Index,
    pub min_position: Point,
}

/// One grid cube: a cell that also carries the grid's resolution, i.e. its
/// own edge length in lattice units.
#[derive(Clone, Copy, Debug, PartialEq, Eq, Structural)]
pub struct Cube {
    pub min_index: Index,
    pub min_position: Point,
    pub resolution: i64,
}

/// One grid vertex: its index and its position in half-units.
#[derive(Clone, Copy, Debug, PartialEq, Eq, Structural)]
pub struct GridVertex {
    pub index: Index,
    pub position: Point,
}

/// Describes a uniform grid for isosurface extraction: a bounding box and
/// the distance between grid vertices. The grid extends beyond the box, so
/// that grid vertices lie outside of it on every side.
#[derive(Clone, Copy, Debug, PartialEq, Eq, Structural)]
pub struct Descriptor {
    pub aabb: Aabb,
    pub resolution: i64,
}

impl Descriptor {
    /// A descriptor is well-formed when its box is ordered, its resolution
    /// is positive, and everything stays within the kernel's coordinate
    /// bound, so that no position or count can leave the machine's range.
    pub open spec fn wf(self) -> bool {
        &&& 1 <= self.resolution <= COORD_LIMIT
        &&& self.aabb.wf()
        &&& -COORD_LIMIT <= self.aabb.min.x && self.aabb.max.x <= COORD_LIMIT
        &&& -COORD_LIMIT <= self.aabb.min.y && self.aabb.max.y <= COORD_LIMIT
        &&& -COORD_LIMIT <= self.aabb.min.z && self.aabb.max.z <= COORD_LIMIT
        &&& self.nx() * self.ny() * self.nz() <= usize::MAX
        &&& self.vx() * self.vy() * self.vz() <= usize::MAX
    }

    /// The number of cells along the x axis.
    pub open spec fn nx(self) -> int {
        spec_cell_count(self.aabb.min.x as int, self.aabb.max.x as int, self.resolution as int)
    }

    /// The number of cells along the y axis.
    pub open spec fn ny(self) -> int {
        spec_cell_count(self.aabb.min.y as int, self.aabb.max.y as int, self.resolution as int)
    }

    /// The number of cells along the z axis.
    pub open spec fn nz(self) -> int {
        spec_cell_count(self.aabb.min.z as int, self.aabb.max.z as int, self.resolution as int)
    }

    /// The number of vertices along the x axis.
    pub open spec fn vx(self) -> int {
        spec_vertex_count(self.aabb.min.x as int, self.aabb.max.x as int, self.resolution as int)
    }

    /// The number of vertices along the y axis.
    pub open spec fn vy(self) -> int {
        spec_vertex_count(self.aabb.min.y as int, self.aabb.max.y as int, self.resolution as int)
    }

    /// The number of vertices along the z axis.
    pub open spec fn vz(self) -> int {
        spec_vertex_count(self.aabb.min.z as int, self.aabb.max.z as int, self.resolution as int)
    }

    /// The cell with index `(a, b, c)`: its minimum corner's index and that
    /// corner's position in half-units.
    pub open spec fn is_cell_at(self, a: int, b: int, c: int, cell: Cell) -> bool {
        &&& cell.min_index.x == a && cell.min_index.y == b && cell.min_index.z == c
        &&& cell.min_position.x == spec_position2(a, self.aabb.min.x as int, self.resolution as int)
        &&& cell.min_position.y == spec_position2(b, self.aabb.min.y as int, self.resolution as int)
        &&& cell.min_position.z == spec_position2(c, self.aabb.min.z as int, self.resolution as int)
    }

    /// The vertex with index `(a, b, c)` and its position in half-units.
    pub open spec fn is_vertex_at(self, a: int, b: int, c: int, v: GridVertex) -> bool {
        &&& v.index.x == a && v.index.y == b && v.index.z == c
        &&& v.position.x == spec_position2(a, self.aabb.min.x as int, self.resolution as int)
        &&& v.position.y == spec_position2(b, self.aabb.min.y as int, self.resolution as int)
        &&& v.position.z == spec_position2(c, self.aabb.min.z as int, self.resolution as int)
    }

    /// The complete cell sequence: one cell per index triple of the
    /// cartesian product, ordered lexicographically by (x, y, z); entry `k`
    /// is the cell with index `(k / (ny * nz), (k % (ny * nz)) / nz,
    /// k % nz)`.
    pub open spec fn is_cells(self, s: Seq<Cell>) -> bool {
        &&& s.len() == self.nx() * self.ny() * self.nz()
        &&& forall|k: int|
            0 <= k < s.len() ==> self.is_cell_at(
                k / (self.ny() * self.nz()),
                (k % (self.ny() * self.nz())) / self.nz(),
                k % self.nz(),
                #[trigger] s[k],
            )
    }

    /// The complete cube sequence: the cells, each also carrying the grid's
    /// resolution, in the same lexicographic order.
    pub open spec fn is_cubes(self, s: Seq<Cube>) -> bool {
        &&& s.len() == self.nx() * self.ny() * self.nz()
        &&& forall|k: int|
            0 <= k < s.len() ==> {
                let cube = #[trigger] s[k];
                &&& cube.resolution == self.resolution
                &&& self.is_cell_at(
                    k / (self.ny() * self.nz()),
                    (k % (self.ny() * self.nz())) / self.nz(),
                    k % self.nz(),
                    Cell { min_index: cube.min_index, min_position: cube.min_position },
                )
            }
    }

    /// The complete vertex sequence: one vertex per index triple of the
    /// cartesian product over the wider vertex ranges, ordered
    /// lexicographically by (x, y, z).
    pub open spec fn is_vertices(self, s: Seq<GridVertex>) -> bool {
        &&& s.len() == self.vx() * self.vy() * self.vz()
        &&& forall|k: int|
            0 <= k < s.len() ==> self.is_vertex_at(
                k / (self.vy() * self.vz()),
                (k % (self.vy() * self.vz())) / self.vz(),
                k % self.vz(),
                #[trigger] s[k],
            )
    }

    /// Compute the grid cells, in lexicographic (x, y, z) index order.
    ///
    /// The grid extends beyond `self.aabb`, so that the centers of the
    /// outermost grid cells are outside of, or exactly on, the box (see
    /// `lemma_grid_overshoots_box`).
    pub fn cells(&self) -> (r: Vec<Cell>)
        requires
            self.wf(),
        ensures
            self.is_cells(r@),
    {
        let min = self.aabb.min;
        let max = self.aabb.max;
        let res = self.resolution;
        let nx = cell_indices(min.x, max.x, res);
        let ny = cell_indices(min.y, max.y, res);
        let nz = cell_indices(min.z, max.z, res);
        let idx = lattice_indices(nx, ny, nz);
        let mut r: Vec<Cell> = Vec::new();
        let mut i: usize = 0;
        while i < idx.len()
            invariant
                self.wf(),
                min == self.aabb.min,
                max == self.aabb.max,
                res == self.resolution,
                nx as int == self.nx(),
                ny as int == self.ny(),
                nz as int == self.nz(),
                idx@.len() == nx * ny * nz,
                forall|k: int|
                    0 <= k < idx@.len() ==> #[trigger] idx@[k] == (Index {
                        x: (k / (ny * nz)) as usize,
                        y: ((k % (ny * nz)) / (nz as int)) as usize,
                        z: (k % (nz as int)) as usize,
                    }),
                forall|k: int|
                    0 <= k < idx@.len() ==> (#[trigger] idx@[k]).x < nx && idx@[k].y < ny
                        && idx@[k].z < nz,
                i <= idx@.len(),
                r@.len() == i,
                forall|j: int|
                    0 <= j < i ==> {
                        let cell = #[trigger] r@[j];
                        &&& cell.min_index == idx@[j]
                        &&& cell.min_position.x == spec_position2(
                            idx@[j].x as int,
                            min.x as int,
                            res as int,
                        )
                        &&& cell.min_position.y == spec_position2(
                            idx@[j].y as int,
                            min.y as int,
                            res as int,
                        )
                        &&& cell.min_position.z == spec_position2(
                            idx@[j].z as int,
                            min.z as int,
                            res as int,
                        )
                    },
            decreases idx@.len() - i,
        {
            let ix = idx[i];
            proof {
                lemma_step_product_bound(ix.x as int, min.x as int, max.x as int, res as int, 0);
                lemma_step_product_bound(ix.y as int, min.y as int, max.y as int, res as int, 0);
                lemma_step_product_bound(ix.z as int, min.z as int, max.z as int, res as int, 0);
            }
            let p = ix.to_position(min, res);
            r.push(Cell { min_index: ix, min_position: p });
            i += 1;
        }
        proof {
            assert forall|k: int| 0 <= k < r@.len() implies self.is_cell_at(
                k / (self.ny() * self.nz()),
                (k % (self.ny() * self.nz())) / self.nz(),
                k % self.nz(),
                r@[k],
            ) by {
                lemma_mul_is_associative(nx as int, ny as int, nz as int);
                lemma_unflat_bounds(k, nx as int, ny as int, nz as int);
            }
        }
        r
    }

    /// Compute the grid cubes: the cells, each also carrying the grid's
    /// resolution, in the same lexicographic order.
    pub fn cubes(&self) -> (r: Vec<Cube>)
        requires
            self.wf(),
        ensures
            self.is_cubes(r@),
    {
        let cells = self.cells();
        let mut r: Vec<Cube> = Vec::new();
        let mut i: usize = 0;
        while i < cells.len()
            invariant
                self.wf(),
                self.is_cells(cells@),
                i <= cells@.len(),
                r@.len() == i,
                forall|j: int|
                    0 <= j < i ==> #[trigger] r@[j] == (Cube {
                        min_index: cells@[j].min_index,
                        min_position: cells@[j].min_position,
                        resolution: self.resolution,
                    }),
            decreases cells@.len() - i,
        {
            let cell = cells[i];
            r.push(Cube {
                min_index: cell.min_index,
                min_position: cell.min_position,
                resolution: self.resolution,
            });
            i += 1;
        }
        r
    }

    /// Compute the grid vertices, in lexicographic (x, y, z) index order.
    ///
    /// There is one more vertex than there are cells along each axis, and
    /// vertex 0 of each axis sits half a resolution below the box minimum,
    /// so the vertices overshoot the box on every side.
    pub fn vertices(&self) -> (r: Vec<GridVertex>)
        requires
            self.wf(),
        ensures
            self.is_vertices(r@),
    {
        let min = self.aabb.min;
        let max = self.aabb.max;
        let res = self.resolution;
        let vx = vertex_indices(min.x, max.x, res);
        let vy = vertex_indices(min.y, max.y, res);
        let vz = vertex_indices(min.z, max.z, res);
        let idx = lattice_indices(vx, vy, vz);
        let mut r: Vec<GridVertex> = Vec::new();
        let mut i: usize = 0;
        while i < idx.len()
            invariant
                self.wf(),
                min == self.aabb.min,
                max == self.aabb.max,
                res == self.resolution,
                vx as int == self.vx(),
                vy as int == self.vy(),
                vz as int == self.vz(),
                idx@.len() == vx * vy * vz,
                forall|k: int|
                    0 <= k < idx@.len() ==> #[trigger] idx@[k] == (Index {
                        x: (k / (vy * vz)) as usize,
                        y: ((k % (vy * vz)) / (vz as int)) as usize,
                        z: (k % (vz as int)) as usize,
                    }),
                forall|k: int|
                    0 <= k < idx@.len() ==> (#[trigger] idx@[k]).x < vx && idx@[k].y < vy
                        && idx@[k].z < vz,
                i <= idx@.len(),
                r@.len() == i,
                forall|j: int|
                    0 <= j < i ==> {
                        let v = #[trigger] r@[j];
                        &&& v.index == idx@[j]
                        &&& v.position.x == spec_position2(
                            idx@[j].x as int,
                            min.x as int,
                            res as int,
                        )
                        &&& v.position.y == spec_position2(
                            idx@[j].y as int,
                            min.y as int,
                            res as int,
                        )
                        &&& v.position.z == spec_position2(
                            idx@[j].z as int,
                            min.z as int,
                            res as int,
                        )
                    },
            decreases idx@.len() - i,
        {
            let ix = idx[i];
            proof {
                lemma_step_product_bound(ix.x as int, min.x as int, max.x as int, res as int, 1);
                lemma_step_product_bound(ix.y as int, min.y as int, max.y as int, res as int, 1);
                lemma_step_product_bound(ix.z as int, min.z as int, max.z as int, res as int, 1);
            }
            let p = ix.to_position(min, res);
            r.push(GridVertex { index: ix, position: p });
            i += 1;
        }
        proof {
            assert forall|k: int| 0 <= k < r@.len() implies self.is_vertex_at(
                k / (self.vy() * self.vz()),
                (k % (self.vy() * self.vz())) / self.vz(),
                k % self.vz(),
                r@[k],
            ) by {
                lemma_mul_is_associative(vx as int, vy as int, vz as int);
                lemma_unflat_bounds(k, vx as int, vy as int, vz as int);
            }
        }
        r
    }
}

/// All index triples of the cartesian product `[0, nx) x [0, ny) x [0, nz)`,
/// in lexicographic (x, y, z) order: entry `k` is the triple
/// `(k / (ny * nz), (k % (ny * nz)) / nz, k % nz)`.
fn lattice_indices(nx: usize, ny: usize, nz: usize) -> (r: Vec<Index>)
    requires
        1 <= nx,
        1 <= ny,
        1 <= nz,
        nx * ny * nz <= usize::MAX,
    ensures
        r@.len() == nx * ny * nz,
        forall|k: int|
            0 <= k < r@.len() ==> #[trigger] r@[k] == (Index {
                x: (k / (ny * nz)) as usize,
                y: ((k % (ny * nz)) / (nz as int)) as usize,
                z: (k % (nz as int)) as usize,
            }),
        forall|k: int|
            0 <= k < r@.len() ==> (#[trigger] r@[k]).x < nx && r@[k].y < ny && r@[k].z < nz,
{
    proof {
        lemma_mul_is_associative(nx as int, ny as int, nz as int);
        lemma_mul_inequality(1, nx as int, ny as int * nz as int);
        lemma_mul_strictly_positive(ny as int, nz as int);
    }
    let m: usize = ny * nz;
    let total: usize = nx * m;
    let mut r: Vec<Index> = Vec::new();
    let mut k: usize = 0;
    while k < total
        invariant
            1 <= nx && 1 <= ny && 1 <= nz,
            m == ny * nz,
            total == nx * ny * nz,
            k <= total,
            r@.len() == k,
            forall|j: int|
                0 <= j < k ==> #[trigger] r@[j] == (Index {
                    x: (j / (ny * nz)) as usize,
                    y: ((j % (ny * nz)) / (nz as int)) as usize,
                    z: (j % (nz as int)) as usize,
                }),
            forall|j: int|
                0 <= j < k ==> (#[trigger] r@[j]).x < nx && r@[j].y < ny && r@[j].z < nz,
        decreases total - k,
    {
        proof {
            lemma_mul_is_associative(nx as int, ny as int, nz as int);
            lemma_unflat_bounds(k as int, nx as int, ny as int, nz as int);
            lemma_mul_is_commutative(ny as int, nz as int);
            lemma_mod_mod(k as int, nz as int, ny as int);
        }
        let rem: usize = k % m;
        r.push(Index { x: k / m, y: rem / nz, z: rem % nz });
        k += 1;
    }
    r
}

/// Splitting a flat lattice position `k` into its three components keeps
/// each component within its axis range.
proof fn lemma_unflat_bounds(k: int, n1: int, n2: int, n3: int)
    requires
        1 <= n1,
        1 <= n2,
        1 <= n3,
        0 <= k < (n1 * n2) * n3,
    ensures
        0 <= k / (n2 * n3) < n1,
        0 <= (k % (n2 * n3)) / n3 < n2,
        0 <= k % n3 < n3,
{
    let m = n2 * n3;
    lemma_mul_strictly_positive(n2, n3);
    lemma_div_pos_is_pos(k, m);
    lemma_mod_division_less_than_divisor(k, n3);
    lemma_mod_division_less_than_divisor(k, m);
    let rem: int = k % m;
    lemma_div_pos_is_pos(rem, n3);
    lemma_mul_is_associative(n1, n2, n3);
    lemma_div_multiples_vanish_fancy(n1 - 1, m - 1, m);
    lemma_mul_is_distributive_sub(m, n1, 1);
    assert(m * (n1 - 1) + (m - 1) == m * n1 - 1);
    lemma_mul_is_commutative(m, n1);
    lemma_mul_is_commutative(n1, m);
    lemma_div_is_ordered(k, m * n1 - 1, m);
    lemma_div_multiples_vanish_fancy(n2 - 1, n3 - 1, n3);
    lemma_mul_is_distributive_sub(n3, n2, 1);
    assert(n3 * (n2 - 1) + (n3 - 1) == n3 * n2 - 1);
    lemma_mul_is_commutative(n2, n3);
    lemma_div_is_ordered(rem, n3 * n2 - 1, n3);
}

/// Along one axis, the center of cell 0 lies exactly on the box's lower
/// boundary, and the center of the last cell lies on or beyond the box's
/// upper boundary. A cell's center, in half-units, is its minimum position
/// plus the resolution.
pub proof fn lemma_outermost_centers_cover_axis(min: int, max: int, res: int)
    requires
        1 <= res,
        min <= max,
    ensures
        spec_position2(0, min, res) + res == 2 * min,
        spec_position2(spec_cell_count(min, max, res) - 1, min, res) + res >= 2 * max,
{
    let x = max - min + res - 1;
    let q = x / res;
    lemma_div_pos_is_pos(x, res);
    lemma_fundamental_div_mod(x, res);
    lemma_mod_division_less_than_divisor(x, res);
    assert(res * q >= max - min);
    lemma_mul_is_associative(2, q, res);
    lemma_mul_is_commutative(q, res);
    assert(2 * 0 * res == 0) by (nonlinear_arith);
}

/// The grid's outermost layer of cells covers the box: on every axis, the
/// outermost cell centers lie outside of, or exactly on, the box boundary.
/// Centers are in half-units, like all grid positions, so the boundaries
/// appear as `2 * min` and `2 * max`.
pub proof fn lemma_grid_overshoots_box(d: Descriptor)
    requires
        d.wf(),
    ensures
        spec_position2(0, d.aabb.min.x as int, d.resolution as int) + d.resolution == 2
            * d.aabb.min.x,
        spec_position2(0, d.aabb.min.y as int, d.resolution as int) + d.resolution == 2
            * d.aabb.min.y,
        spec_position2(0, d.aabb.min.z as int, d.resolution as int) + d.resolution == 2
            * d.aabb.min.z,
        spec_position2(d.nx() - 1, d.aabb.min.x as int, d.resolution as int) + d.resolution >= 2
            * d.aabb.max.x,
        spec_position2(d.ny() - 1, d.aabb.min.y as int, d.resolution as int) + d.resolution >= 2
            * d.aabb.max.y,
        spec_position2(d.nz() - 1, d.aabb.min.z as int, d.resolution as int) + d.resolution >= 2
            * d.aabb.max.z,
{
    lemma_outermost_centers_cover_axis(
        d.aabb.min.x as int,
        d.aabb.max.x as int,
        d.resolution as int,
    );
    lemma_outermost_centers_cover_axis(
        d.aabb.min.y as int,
        d.aabb.max.y as int,
        d.resolution as int,
    );
    lemma_outermost_centers_cover_axis(
        d.aabb.min.z as int,
        d.aabb.max.z as int,
        d.resolution as int,
    );
}

/// On every axis, the grid has one more vertex than it has cells.
pub proof fn lemma_grid_vertex_counts(d: Descriptor)
    ensures
        d.vx() == d.nx() + 1,
        d.vy() == d.ny() + 1,
        d.vz() == d.nz() + 1,
{
}

/// The cell producer is deterministic: any two sequences it can return for
/// the same descriptor are identical, element for element and in the same
/// order. Re-invoking `cells` therefore reproduces the same sequence.
pub proof fn lemma_cells_deterministic(d: Descriptor, s1: Seq<Cell>, s2: Seq<Cell>)
    requires
        d.is_cells(s1),
        d.is_cells(s2),
    ensures
        s1 == s2,
{
    assert forall|k: int| 0 <= k < s1.len() implies s1[k] == s2[k] by {
    }
    assert(s1 =~= s2);
}

/// The cube producer is deterministic, like the cell producer.
pub proof fn lemma_cubes_deterministic(d: Descriptor, s1: Seq<Cube>, s2: Seq<Cube>)
    requires
        d.is_cubes(s1),
        d.is_cubes(s2),
    ensures
        s1 == s2,
{
    assert forall|k: int| 0 <= k < s1.len() implies s1[k] == s2[k] by {
    }
    assert(s1 =~= s2);
}

/// The vertex producer is deterministic, like the cell producer.
pub proof fn lemma_vertices_deterministic(d: Descriptor, s1: Seq<GridVertex>, s2: Seq<GridVertex>)
    requires
        d.is_vertices(s1),
        d.is_vertices(s2),
    ensures
        s1 == s2,
{
    assert forall|k: int| 0 <= k < s1.len() implies s1[k] == s2[k] by {
    }
    assert(s1 =~= s2);
}

/// A grid index below its axis count, times the resolution, stays well
/// within the kernel's arithmetic range. `extra` is 1 for vertex indices,
/// which reach one step further than cell indices.
proof fn lemma_step_product_bound(i: int, min: int, max: int, res: int, extra: int)
    requires
        0 <= i,
        0 <= extra <= 1,
        1 <= res <= COORD_LIMIT,
        -COORD_LIMIT <= min <= max <= COORD_LIMIT,
        i < spec_cell_count(min, max, res) + extra,
    ensures
        i * res <= COORD_LIMIT * COORD_LIMIT,
{
    let x = max - min + res - 1;
    let q = x / res;
    lemma_fundamental_div_mod(x, res);
    lemma_mod_division_less_than_divisor(x, res);
    assert(res * q <= x);
    lemma_mul_is_commutative(q, res);
    assert(q * res <= x);
    assert(i <= q + extra);
    lemma_mul_inequality(i, q + extra, res);
    assert(i * res <= (q + extra) * res);
    lemma_mul_is_distributive_add_other_way(res, q, extra);
    assert((q + extra) * res == q * res + extra * res);
    lemma_mul_inequality(extra, 1, res);
    assert(extra * res <= 1 * res);
    assert(i * res <= x + res);
    assert(x + res <= 4 * (COORD_LIMIT as int));
    lemma_mul_inequality(4, COORD_LIMIT as int, COORD_LIMIT as int);
    assert(4 * (COORD_LIMIT as int) <= (COORD_LIMIT as int) * (COORD_LIMIT as int));
}

} // verus!
