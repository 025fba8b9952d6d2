use fj_kernel::combine::Error;
use fj_kernel::faces::Triangle;
use fj_kernel::math::Aabb;
use fj_kernel::math::Point;
use fj_kernel::shape::Circle;
use fj_kernel::shape::Shape;
use fj_kernel::shape::Shape2d;
use fj_kernel::shape::Shape3d;
use fj_kernel::shape::Sweep;
use fj_kernel::shape::Union;
use fj_kernel::triangulate::side_count;

fn tri(a: (i64, i64, i64), b: (i64, i64, i64), c: (i64, i64, i64)) -> Triangle {
    Triangle::new(
        Point::new(a.0, a.1, a.2),
        Point::new(b.0, b.1, b.2),
        Point::new(c.0, c.1, c.2),
    )
}

#[test]
fn unit_square_triangulates_into_two_triangles() {
    let square = fj_kernel::shape::Square { side: 1 };
    let triangles = square.triangles(1);
    assert_eq!(
        triangles,
        vec![
            tri((0, 0, 0), (1, 0, 0), (1, 1, 0)),
            tri((0, 0, 0), (1, 1, 0), (0, 1, 0)),
        ]
    );
}

#[test]
fn square_ignores_the_tolerance() {
    let square = fj_kernel::shape::Square { side: 7 };
    assert_eq!(square.triangles(1), square.triangles(999));
}

#[test]
fn circle_side_count_never_increases_with_tolerance() {
    // The incircle gap of the triangle is radius / 2, so a tolerance just
    // above it keeps the count at the minimum of 3.
    assert_eq!(side_count(1000, 510), 3);
    // cos(pi / 4) leaves a gap of about 292.9 of the radius 1000.
    assert_eq!(side_count(1000, 300), 4);
    // A tolerance of one thousandth of the radius needs 71 sides.
    assert_eq!(side_count(1000, 1), 71);

    let tolerances = [1, 2, 3, 5, 10, 50, 100, 200, 300, 400, 510, 1000];
    let mut previous = side_count(1000, tolerances[0]);
    assert!(previous >= 3);
    for &tol in &tolerances[1..] {
        let n = side_count(1000, tol);
        assert!(n >= 3);
        assert!(n <= previous);
        previous = n;
    }
}

#[test]
fn circle_ring_lies_on_the_circle() {
    let circle = Circle { radius: 1000 };
    let ring = circle.vertices(510);
    assert_eq!(ring.len(), 3);
    // Vertex 0 sits at angle 0, vertices 1 and 2 a third of a turn apart;
    // coordinates are the radius scaled by cosine and sine, rounded down.
    assert!(ring[0].x >= 998 && ring[0].x <= 1000);
    assert!(ring[0].y >= -2 && ring[0].y <= 2);
    assert!(ring[1].x >= -502 && ring[1].x <= -498);
    assert!(ring[1].y >= 864 && ring[1].y <= 868);
    assert!(ring[2].x >= -502 && ring[2].x <= -498);
    assert!(ring[2].y >= -868 && ring[2].y <= -864);
    for v in &ring {
        assert_eq!(v.z, 0);
    }
}

#[test]
fn circle_triangulates_as_a_fan_of_its_ring() {
    let circle = Circle { radius: 1000 };
    let ring = circle.vertices(510);
    let triangles = circle.triangles(510);
    assert_eq!(triangles.len(), ring.len() - 2);
    assert_eq!(triangles[0], Triangle::new(ring[0], ring[1], ring[2]));

    let fine = circle.triangles(1);
    assert_eq!(fine.len(), 71 - 2);
}

#[test]
fn sweep_of_unit_square_produces_twelve_triangles() {
    let sweep = Sweep { shape: Shape2d::Square(fj_kernel::shape::Square { side: 1 }), length: 1 };
    let triangles = sweep.triangles(1);
    assert_eq!(triangles.len(), 12);
    assert_eq!(
        triangles,
        vec![
            // Bottom face: the base triangles, winding inverted.
            tri((0, 0, 0), (1, 1, 0), (1, 0, 0)),
            tri((0, 0, 0), (0, 1, 0), (1, 1, 0)),
            // Top face: the base triangles, translated up.
            tri((0, 0, 1), (1, 0, 1), (1, 1, 1)),
            tri((0, 0, 1), (1, 1, 1), (0, 1, 1)),
            // Side quads, one per boundary edge, the closing edge included.
            tri((0, 0, 0), (1, 0, 0), (1, 0, 1)),
            tri((0, 0, 0), (1, 0, 1), (0, 0, 1)),
            tri((1, 0, 0), (1, 1, 0), (1, 1, 1)),
            tri((1, 0, 0), (1, 1, 1), (1, 0, 1)),
            tri((1, 1, 0), (0, 1, 0), (0, 1, 1)),
            tri((1, 1, 0), (0, 1, 1), (1, 1, 1)),
            tri((0, 1, 0), (0, 0, 0), (0, 0, 1)),
            tri((0, 1, 0), (0, 0, 1), (0, 1, 1)),
        ]
    );
}

fn square_sweep(side: i64, length: i64) -> Shape3d {
    Shape3d::Sweep(Sweep { shape: Shape2d::Square(fj_kernel::shape::Square { side }), length })
}

#[test]
fn union_concatenates_the_faces_of_its_sides() {
    let union = Union { a: Box::new(square_sweep(2, 3)), b: Box::new(square_sweep(1, 5)) };
    let faces = union.faces(1);
    let expected: Vec<Triangle> = square_sweep(2, 3)
        .triangles(1)
        .into_iter()
        .chain(square_sweep(1, 5).triangles(1))
        .collect();
    assert_eq!(faces.0, expected);
    assert_eq!(faces.0.len(), 24);
}

#[test]
fn union_bounding_volume_merges_the_boxes() {
    let union = Union { a: Box::new(square_sweep(2, 3)), b: Box::new(square_sweep(1, 5)) };
    let bv = union.bounding_volume();
    assert_eq!(bv, Aabb { min: Point::new(0, 0, 0), max: Point::new(2, 2, 5) });
}

#[test]
fn union_edges_and_vertices_fail_loudly() {
    let union = Union { a: Box::new(square_sweep(1, 1)), b: Box::new(square_sweep(1, 1)) };
    assert_eq!(union.edges(), Err(Error::NotImplemented));
    assert_eq!(union.vertices(), Err(Error::NotImplemented));
}

#[test]
fn shape_dispatch_matches_the_variants() {
    let square = fj_kernel::shape::Square { side: 4 };
    let as_shape = Shape::Shape2d(Shape2d::Square(square));
    assert_eq!(as_shape.triangles(1), square.triangles(1));

    let as_solid = Shape::Shape3d(square_sweep(4, 2));
    assert_eq!(as_solid.triangles(1), square_sweep(4, 2).triangles(1));
    assert_eq!(as_solid.triangles(1).len(), 12);
}

#[test]
fn bounding_volumes_follow_the_shapes() {
    let circle = Shape2d::Circle(Circle { radius: 9 });
    assert_eq!(
        circle.bounding_volume(),
        Aabb { min: Point::new(-9, -9, 0), max: Point::new(9, 9, 0) }
    );
    let square = Shape2d::Square(fj_kernel::shape::Square { side: 6 });
    assert_eq!(
        square.bounding_volume(),
        Aabb { min: Point::new(0, 0, 0), max: Point::new(6, 6, 0) }
    );
    assert_eq!(
        square_sweep(6, 10).bounding_volume(),
        Aabb { min: Point::new(0, 0, 0), max: Point::new(6, 6, 10) }
    );
}

#[test]
fn merged_boxes_take_extreme_corners() {
    let a = Aabb { min: Point::new(-1, 0, 5), max: Point::new(3, 4, 9) };
    let b = Aabb { min: Point::new(0, -2, 6), max: Point::new(2, 7, 8) };
    assert_eq!(
        a.merged(&b),
        Aabb { min: Point::new(-1, -2, 5), max: Point::new(3, 7, 9) }
    );
}
