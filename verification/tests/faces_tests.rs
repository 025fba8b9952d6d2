use fj_kernel::faces::Triangle;
use fj_kernel::math::Point;
use fj_kernel::math::Vector;

fn sample_triangle() -> Triangle {
    Triangle::new(Point::new(1, 2, 3), Point::new(4, 5, 6), Point::new(7, 8, 9))
}

#[test]
fn invert_swaps_the_second_and_third_vertex() {
    let t = sample_triangle();
    let r = t.invert();
    assert_eq!(r.v0, Point::new(1, 2, 3));
    assert_eq!(r.v1, Point::new(7, 8, 9));
    assert_eq!(r.v2, Point::new(4, 5, 6));
}

#[test]
fn invert_is_its_own_inverse() {
    let t = sample_triangle();
    assert_eq!(t.invert().invert(), t);
}

#[test]
fn translate_displaces_every_vertex() {
    let t = sample_triangle();
    let r = t.translate(Vector::new(10, -20, 30));
    assert_eq!(r.v0, Point::new(11, -18, 33));
    assert_eq!(r.v1, Point::new(14, -15, 36));
    assert_eq!(r.v2, Point::new(17, -12, 39));
}

#[test]
fn translate_round_trips_through_the_negated_vector() {
    let t = sample_triangle();
    let v = Vector::new(1000, -37, 123456789);
    assert_eq!(t.translate(v).translate(v.neg()), t);
    let w = Vector::new(-1, 0, 1);
    assert_eq!(t.translate(w).translate(w.neg()), t);
}
