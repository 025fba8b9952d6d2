use fj_kernel::grid::cell_indices;
use fj_kernel::grid::vertex_indices;
use fj_kernel::grid::Cell;
use fj_kernel::grid::Descriptor;
use fj_kernel::grid::Index;
use fj_kernel::math::Aabb;
use fj_kernel::math::Point;

// The descriptor of the worked grid example: a box from (0, 0, 0.5) to
// (0.5, 1, 1.5) at resolution 1, written on the lattice with one unit
// standing for 0.5, so min = (0, 0, 1), max = (1, 2, 3), resolution = 2.
// Positions come back in half-units (one half-unit = 0.25 here).
fn example_grid() -> Descriptor {
    Descriptor {
        aabb: Aabb { min: Point::new(0, 0, 1), max: Point::new(1, 2, 3) },
        resolution: 2,
    }
}

#[test]
fn cells_should_return_grid_cells() {
    let grid = example_grid();

    let cells: Vec<Cell> = grid.cells();

    assert_eq!(
        cells,
        vec![
            Cell { min_index: Index::new(0, 0, 0), min_position: Point::new(-2, -2, 0) },
            Cell { min_index: Index::new(0, 0, 1), min_position: Point::new(-2, -2, 4) },
            Cell { min_index: Index::new(0, 1, 0), min_position: Point::new(-2, 2, 0) },
            Cell { min_index: Index::new(0, 1, 1), min_position: Point::new(-2, 2, 4) },
            Cell { min_index: Index::new(1, 0, 0), min_position: Point::new(2, -2, 0) },
            Cell { min_index: Index::new(1, 0, 1), min_position: Point::new(2, -2, 4) },
            Cell { min_index: Index::new(1, 1, 0), min_position: Point::new(2, 2, 0) },
            Cell { min_index: Index::new(1, 1, 1), min_position: Point::new(2, 2, 4) },
        ]
    );
}

#[test]
fn outermost_cell_centers_lie_on_or_outside_the_box() {
    let grid = example_grid();
    let res = grid.resolution;
    let cells = grid.cells();

    // A cell's center, in half-units, is its minimum position plus the
    // resolution; the box boundaries in half-units are 2 * min and 2 * max.
    for cell in &cells {
        let center_x = cell.min_position.x + res;
        let center_y = cell.min_position.y + res;
        let center_z = cell.min_position.z + res;
        if cell.min_index.x() == 0 {
            assert!(center_x <= 2 * grid.aabb.min.x);
        }
        if cell.min_index.x() == 1 {
            assert!(center_x >= 2 * grid.aabb.max.x);
        }
        if cell.min_index.y() == 0 {
            assert!(center_y <= 2 * grid.aabb.min.y);
        }
        if cell.min_index.y() == 1 {
            assert!(center_y >= 2 * grid.aabb.max.y);
        }
        if cell.min_index.z() == 0 {
            assert!(center_z <= 2 * grid.aabb.min.z);
        }
        if cell.min_index.z() == 1 {
            assert!(center_z >= 2 * grid.aabb.max.z);
        }
    }
}

#[test]
fn vertex_count_is_cell_count_plus_one_per_axis() {
    assert_eq!(cell_indices(0, 1, 2), 2);
    assert_eq!(vertex_indices(0, 1, 2), 3);
    assert_eq!(cell_indices(0, 0, 1), 1);
    assert_eq!(vertex_indices(0, 0, 1), 2);
    assert_eq!(cell_indices(-5, 9, 3), 6);
    assert_eq!(vertex_indices(-5, 9, 3), 7);

    // The vertex grid of the example is one larger than its cell grid on
    // every axis: 3 * 3 * 3 vertices against 2 * 2 * 2 cells.
    let grid = example_grid();
    assert_eq!(grid.cells().len(), 8);
    assert_eq!(grid.vertices().len(), 27);
}

#[test]
fn producers_are_restartable() {
    let grid = example_grid();
    assert_eq!(grid.cells(), grid.cells());
    assert_eq!(grid.cubes(), grid.cubes());
    assert_eq!(grid.vertices(), grid.vertices());
}

#[test]
fn cubes_carry_the_resolution() {
    let grid = example_grid();
    let cells = grid.cells();
    let cubes = grid.cubes();
    assert_eq!(cubes.len(), cells.len());
    for (cube, cell) in cubes.iter().zip(cells.iter()) {
        assert_eq!(cube.min_index, cell.min_index);
        assert_eq!(cube.min_position, cell.min_position);
        assert_eq!(cube.resolution, grid.resolution);
    }
}

#[test]
fn vertices_pair_each_index_with_its_position() {
    let grid = example_grid();
    let vertices = grid.vertices();
    assert_eq!(vertices.len(), 27);
    // Lexicographic order: the first vertex is (0, 0, 0), the last (2, 2, 2).
    assert_eq!(vertices[0].index, Index::new(0, 0, 0));
    assert_eq!(vertices[0].position, Point::new(-2, -2, 0));
    assert_eq!(vertices[26].index, Index::new(2, 2, 2));
    assert_eq!(vertices[26].position, Point::new(6, 6, 8));
    for v in &vertices {
        assert_eq!(v.position, v.index.to_position(grid.aabb.min, grid.resolution));
    }
}

#[test]
fn index_components_and_translation() {
    let i = Index::new(1, 2, 3);
    assert_eq!(i.x(), 1);
    assert_eq!(i.y(), 2);
    assert_eq!(i.z(), 3);
    assert_eq!(i.translate(1, -2, 0), Index::new(2, 0, 3));
    assert_eq!(i.translate(0, 0, -3), Index::new(1, 2, 0));
}

#[test]
fn index_to_position_follows_the_grid_formula() {
    // Positions are in half-units: 2 * i * res + 2 * min - res per axis.
    let p = Index::new(1, 2, 3).to_position(Point::new(0, 0, 1), 2);
    assert_eq!(p, Point::new(2, 6, 12));
    let p0 = Index::new(0, 0, 0).to_position(Point::new(-4, 5, 0), 3);
    assert_eq!(p0, Point::new(-11, 7, -3));
}
