use pga_utils::collision::{
    aabb_to_convex_polygon, do_convex_polygons_overlap, is_box_in_order, line_line_intersection,
};
use pga_utils::pga2d::{Plane, Point};
use geometric_algebra::ppga2d;
use geometric_algebra::RegressiveProduct;

fn boxed(x_min: f32, y_min: f32, x_max: f32, y_max: f32) -> [Point; 4] {
    aabb_to_convex_polygon(&[x_min.to_bits(), y_min.to_bits(), x_max.to_bits(), y_max.to_bits()])
}

fn point(x: f32, y: f32) -> Point {
    Point { g0: [1.0f32.to_bits(), x.to_bits(), y.to_bits()] }
}

fn numbers(p: &Point) -> [f32; 3] {
    [f32::from_bits(p.g0[0]), f32::from_bits(p.g0[1]), f32::from_bits(p.g0[2])]
}

#[test]
fn box_corners_come_in_the_fixed_order() {
    let corners = boxed(1.0, 2.0, 3.0, 4.0);
    assert_eq!(numbers(&corners[0]), [1.0, 1.0, 2.0]);
    assert_eq!(numbers(&corners[1]), [1.0, 1.0, 4.0]);
    assert_eq!(numbers(&corners[2]), [1.0, 3.0, 4.0]);
    assert_eq!(numbers(&corners[3]), [1.0, 3.0, 2.0]);
}

#[test]
fn inverted_box_keeps_the_order_of_its_fields() {
    let corners = boxed(3.0, 4.0, 1.0, 2.0);
    assert_eq!(numbers(&corners[0]), [1.0, 3.0, 4.0]);
    assert_eq!(numbers(&corners[1]), [1.0, 3.0, 2.0]);
    assert_eq!(numbers(&corners[2]), [1.0, 1.0, 2.0]);
    assert_eq!(numbers(&corners[3]), [1.0, 1.0, 4.0]);
}

#[test]
fn box_with_bounds_in_order() {
    let b = |x0: f32, y0: f32, x1: f32, y1: f32| [x0.to_bits(), y0.to_bits(), x1.to_bits(), y1.to_bits()];
    assert!(is_box_in_order(&b(0.0, 0.0, 1.0, 1.0)));
    assert!(is_box_in_order(&b(-3.0, -2.0, -1.0, 5.0)));
    assert!(is_box_in_order(&b(1.0, 1.0, 1.0, 1.0)));
    assert!(is_box_in_order(&b(-0.0, 0.0, 0.0, -0.0)));
    assert!(!is_box_in_order(&b(1.0, 0.0, 0.0, 1.0)));
    assert!(!is_box_in_order(&b(0.0, 1.0, 1.0, 0.0)));
    assert!(!is_box_in_order(&b(1.0, 1.0, 0.0, 0.0)));
    assert!(!is_box_in_order(&b(f32::NAN, 0.0, 1.0, 1.0)));
    assert!(!is_box_in_order(&b(0.0, 0.0, 1.0, f32::NAN)));
}

#[test]
fn box_inverted_in_one_direction_breaks_the_overlap_test() {
    // The same squares as in `overlapping_boxes_overlap`, the first with its
    // x bounds exchanged: its winding is reversed and the answer is wrong.
    let a = boxed(2.0, 0.0, 0.0, 2.0);
    let b = boxed(1.0, 1.0, 3.0, 3.0);
    assert!(!do_convex_polygons_overlap(&a, &b));
}

#[test]
fn disjoint_boxes_do_not_overlap() {
    let a = boxed(0.0, 0.0, 1.0, 1.0);
    let b = boxed(2.0, 0.0, 3.0, 1.0);
    assert!(!do_convex_polygons_overlap(&a, &b));
    assert!(!do_convex_polygons_overlap(&b, &a));
    let c = boxed(0.0, 5.0, 1.0, 6.0);
    assert!(!do_convex_polygons_overlap(&a, &c));
    assert!(!do_convex_polygons_overlap(&c, &a));
}

#[test]
fn overlapping_boxes_overlap() {
    let a = boxed(0.0, 0.0, 2.0, 2.0);
    let b = boxed(1.0, 1.0, 3.0, 3.0);
    assert!(do_convex_polygons_overlap(&a, &b));
    assert!(do_convex_polygons_overlap(&b, &a));
}

#[test]
fn nested_boxes_overlap() {
    let outer = boxed(0.0, 0.0, 10.0, 10.0);
    let inner = boxed(4.0, 4.0, 5.0, 5.0);
    assert!(do_convex_polygons_overlap(&outer, &inner));
    assert!(do_convex_polygons_overlap(&inner, &outer));
}

#[test]
fn boxes_that_share_an_edge_do_not_overlap() {
    let a = boxed(0.0, 0.0, 1.0, 1.0);
    let b = boxed(1.0, 0.0, 2.0, 1.0);
    assert!(!do_convex_polygons_overlap(&a, &b));
    assert!(!do_convex_polygons_overlap(&b, &a));
}

#[test]
fn boxes_that_share_a_corner_do_not_overlap() {
    let a = boxed(0.0, 0.0, 1.0, 1.0);
    let b = boxed(1.0, 1.0, 2.0, 2.0);
    assert!(!do_convex_polygons_overlap(&a, &b));
}

#[test]
fn separation_is_found_from_the_second_polygon_too() {
    // No edge of the square separates it from the triangle: only the long
    // edge of the triangle, on the line x + y = 2.5, does.
    let square = boxed(0.0, 0.0, 1.0, 1.0);
    let triangle = [point(3.0, 3.0), point(3.0, -0.5), point(-0.5, 3.0)];
    assert!(!do_convex_polygons_overlap(&square, &triangle));
    assert!(!do_convex_polygons_overlap(&triangle, &square));
}

#[test]
fn triangle_that_cuts_a_square_overlaps_it() {
    let square = boxed(0.0, 0.0, 1.0, 1.0);
    let triangle = [point(0.5, 0.5), point(0.0, 3.0), point(3.0, 0.0)];
    assert!(do_convex_polygons_overlap(&square, &triangle));
    assert!(do_convex_polygons_overlap(&triangle, &square));
}

#[test]
fn polygons_without_vertices() {
    let a = boxed(0.0, 0.0, 1.0, 1.0);
    let none: [Point; 0] = [];
    assert!(do_convex_polygons_overlap(&none, &none));
    assert!(!do_convex_polygons_overlap(&a, &none));
    assert!(!do_convex_polygons_overlap(&none, &a));
}

#[test]
fn a_side_that_is_nan_counts_as_inside() {
    let a = boxed(0.0, 0.0, 1.0, 1.0);
    let b = [point(f32::NAN, 0.0), point(f32::NAN, 1.0), point(f32::NAN, 2.0)];
    assert!(do_convex_polygons_overlap(&a, &b));
}

#[test]
fn axes_intersect_in_the_origin() {
    // The x axis is the line y = 0, the y axis the line x = 0; a line holds
    // the coefficients of e0, e2 and e1.
    let x_axis = Plane { g0: [0.0f32.to_bits(), 1.0f32.to_bits(), 0.0f32.to_bits()] };
    let y_axis = Plane { g0: [0.0f32.to_bits(), 0.0f32.to_bits(), 1.0f32.to_bits()] };
    let p = numbers(&line_line_intersection(x_axis, y_axis));
    assert_eq!(p, [1.0, 0.0, 0.0]);
    let q = numbers(&line_line_intersection(y_axis, x_axis));
    assert_eq!(q, [1.0, 0.0, 0.0]);
}

#[test]
fn lines_through_the_unit_points_of_the_axes_intersect_in_the_origin() {
    let p = |x: f32, y: f32| ppga2d::Point { g0: [1.0, x, y].into() };
    let x_axis = p(0.0, 0.0).regressive_product(p(1.0, 0.0));
    let y_axis = p(0.0, 0.0).regressive_product(p(0.0, 1.0));
    let as_plane = |l: ppga2d::Plane| Plane { g0: [l.g0[0].to_bits(), l.g0[1].to_bits(), l.g0[2].to_bits()] };
    let hit = numbers(&line_line_intersection(as_plane(x_axis), as_plane(y_axis)));
    assert_eq!(hit, [1.0, 0.0, 0.0]);
}

#[test]
fn shifted_lines_intersect_where_expected() {
    // x = 2 and y = 3, as the lines through two points each.
    let p = |x: f32, y: f32| ppga2d::Point { g0: [1.0, x, y].into() };
    let vertical = p(2.0, 0.0).regressive_product(p(2.0, 1.0));
    let horizontal = p(0.0, 3.0).regressive_product(p(1.0, 3.0));
    let as_plane = |l: ppga2d::Plane| Plane { g0: [l.g0[0].to_bits(), l.g0[1].to_bits(), l.g0[2].to_bits()] };
    let hit = numbers(&line_line_intersection(as_plane(vertical), as_plane(horizontal)));
    assert_eq!(hit, [1.0, 2.0, 3.0]);
}

#[test]
fn parallel_lines_have_no_point() {
    let a = Plane { g0: [0.0f32.to_bits(), 1.0f32.to_bits(), 0.0f32.to_bits()] };
    let b = Plane { g0: [1.0f32.to_bits(), 1.0f32.to_bits(), 0.0f32.to_bits()] };
    let p = numbers(&line_line_intersection(a, b));
    assert!(p.iter().any(|c| !c.is_finite()));
}
