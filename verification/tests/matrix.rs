use pga_utils::ieee::{ONE, ZERO};
use pga_utils::matrix::{matrix_multiplication, perspective_matrix};
use pga_utils::pga3d::Point;
use std::f32::consts::PI;

fn column(x: f32, y: f32, z: f32, w: f32) -> Point {
    Point { g0: [x.to_bits(), y.to_bits(), z.to_bits(), w.to_bits()] }
}

fn numbers(m: &[Point; 4]) -> [[f32; 4]; 4] {
    let f = |p: &Point| [f32::from_bits(p.g0[0]), f32::from_bits(p.g0[1]), f32::from_bits(p.g0[2]), f32::from_bits(p.g0[3])];
    [f(&m[0]), f(&m[1]), f(&m[2]), f(&m[3])]
}

fn identity() -> [Point; 4] {
    [column(1.0, 0.0, 0.0, 0.0), column(0.0, 1.0, 0.0, 0.0), column(0.0, 0.0, 1.0, 0.0), column(0.0, 0.0, 0.0, 1.0)]
}

fn sample() -> [Point; 4] {
    [
        column(1.0, 2.0, 3.0, 4.0),
        column(-5.0, 6.5, 7.25, 8.0),
        column(9.0, -10.0, 0.0, 12.0),
        column(0.125, 14.0, -15.0, 1.0e-3),
    ]
}

/// The matrix applied to a point: the columns combined with its coordinates.
fn apply(m: &[Point; 4], v: [f32; 4]) -> [f32; 4] {
    let c = numbers(m);
    let mut r = [0.0f32; 4];
    for k in 0..4 {
        r[k] = v[0] * c[0][k] + v[1] * c[1][k] + v[2] * c[2][k] + v[3] * c[3][k];
    }
    r
}

fn perspective(field_of_view_y: f32, aspect_ratio: f32, near: f32, far: f32) -> [Point; 4] {
    let height = 1.0 / (field_of_view_y * 0.5).tan();
    let denominator = 1.0 / (near - far);
    perspective_matrix(
        (height / aspect_ratio).to_bits(),
        height.to_bits(),
        (-far * denominator).to_bits(),
        (near * far * denominator).to_bits(),
    )
}

#[test]
fn identity_is_neutral_on_the_left() {
    let m = sample();
    assert_eq!(numbers(&matrix_multiplication(&identity(), &m)), numbers(&m));
}

#[test]
fn identity_is_neutral_on_the_right() {
    let m = sample();
    assert_eq!(numbers(&matrix_multiplication(&m, &identity())), numbers(&m));
}

#[test]
fn identity_times_identity() {
    assert_eq!(numbers(&matrix_multiplication(&identity(), &identity())), numbers(&identity()));
}

#[test]
fn identity_keeps_a_negative_zero_as_a_zero() {
    let mut m = sample();
    m[2].g0[2] = (-0.0f32).to_bits();
    let left = numbers(&matrix_multiplication(&identity(), &m));
    let right = numbers(&matrix_multiplication(&m, &identity()));
    assert_eq!(left, numbers(&m));
    assert_eq!(right, numbers(&m));
    assert_eq!(left[2][2], 0.0);
}

#[test]
fn identity_is_not_neutral_for_an_infinite_entry() {
    let mut m = sample();
    m[1].g0[2] = f32::INFINITY.to_bits();
    let r = numbers(&matrix_multiplication(&identity(), &m));
    assert!(r[1][0].is_nan());
    assert!(r[1][2].is_infinite());
}

#[test]
fn product_combines_the_columns_of_the_first_factor() {
    let a = sample();
    let b = [
        column(2.0, 0.0, 0.0, 0.0),
        column(1.0, 1.0, 0.0, 0.0),
        column(0.0, 0.0, 0.0, 1.0),
        column(1.0, -1.0, 2.0, 0.5),
    ];
    let r = numbers(&matrix_multiplication(&a, &b));
    assert_eq!(r[0], [2.0, 4.0, 6.0, 8.0]);
    assert_eq!(r[1], [-4.0, 8.5, 10.25, 12.0]);
    assert_eq!(r[2], [0.125, 14.0, -15.0, 1.0e-3]);
    assert_eq!(r[3], [1.0 + 5.0 + 18.0 + 0.0625, 2.0 - 6.5 - 20.0 + 7.0, 3.0 - 7.25 + 0.0 - 7.5, 4.0 - 8.0 + 24.0 + 0.5e-3]);
}

#[test]
fn product_is_not_commutative() {
    let a = sample();
    let b = [
        column(0.0, 1.0, 0.0, 0.0),
        column(1.0, 0.0, 0.0, 0.0),
        column(0.0, 0.0, 1.0, 0.0),
        column(0.0, 0.0, 0.0, 1.0),
    ];
    let ab = numbers(&matrix_multiplication(&a, &b));
    let ba = numbers(&matrix_multiplication(&b, &a));
    // a × b swaps the two first columns of a, b × a the two first rows.
    assert_eq!(ab[0], [-5.0, 6.5, 7.25, 8.0]);
    assert_eq!(ab[1], [1.0, 2.0, 3.0, 4.0]);
    assert_eq!(ba[0], [2.0, 1.0, 3.0, 4.0]);
    assert_eq!(ba[1], [6.5, -5.0, 7.25, 8.0]);
}

#[test]
fn product_applies_the_second_factor_first() {
    let a = sample();
    let b = [
        column(2.0, 0.0, 0.0, 0.0),
        column(1.0, 1.0, 0.0, 0.0),
        column(0.0, 0.0, 0.0, 1.0),
        column(1.0, -1.0, 2.0, 0.5),
    ];
    let v = [1.0, 2.0, -1.0, 1.0];
    let at_once = apply(&matrix_multiplication(&a, &b), v);
    let in_turn = apply(&a, apply(&b, v));
    for k in 0..4 {
        assert!((at_once[k] - in_turn[k]).abs() <= 1.0e-4, "{at_once:?} {in_turn:?}");
    }
}

#[test]
fn perspective_matrix_has_the_fixed_layout() {
    let m = perspective_matrix(2.0f32.to_bits(), 3.0f32.to_bits(), 4.0f32.to_bits(), 5.0f32.to_bits());
    assert_eq!(numbers(&m), [[2.0, 0.0, 0.0, 0.0], [0.0, 3.0, 0.0, 0.0], [0.0, 0.0, 4.0, 1.0], [0.0, 0.0, 5.0, 0.0]]);
    assert_eq!(m[2].g0[3], ONE);
    assert_eq!(m[3].g0[3], ZERO);
}

#[test]
fn perspective_entries_for_a_right_angle() {
    let m = numbers(&perspective(PI * 0.5, 2.0, 1.0, 1000.0));
    assert!((m[0][0] - 0.5).abs() <= 1.0e-6);
    assert!((m[1][1] - 1.0).abs() <= 1.0e-6);
    assert!((m[2][2] - 1000.0 / 999.0).abs() <= 1.0e-6);
    assert!((m[3][2] + 1000.0 / 999.0).abs() <= 1.0e-6);
    assert_eq!(m[2][3], 1.0);
}

#[test]
fn perspective_depth_at_near_and_far() {
    let m = perspective(PI * 0.5, 1.0, 1.0, 1000.0);
    let near = apply(&m, [0.0, 0.0, 1.0, 1.0]);
    let far = apply(&m, [0.0, 0.0, 1000.0, 1.0]);
    // The fourth coordinate of an image is the z of the point.
    assert_eq!(near[3], 1.0);
    assert_eq!(far[3], 1000.0);
    let depth_near = near[2] / near[3];
    let depth_far = far[2] / far[3];
    assert!((depth_near - 0.0).abs() <= 1.0e-6, "{depth_near}");
    assert!((depth_far - 1.0).abs() <= 1.0e-6, "{depth_far}");
}
