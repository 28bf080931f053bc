//! Elements of the plane-based geometric algebra of space, and the products
//! on them that are left to the `geometric_algebra` crate.
//!
//! As in the plane, an element holds bit patterns, its view is the sequence
//! of numbers that they denote, and each product of the crate has a name.
//! Of the two products that work coefficient by coefficient a little more is
//! taken on trust: what IEEE 754 says of a factor of one or zero and of a
//! term of zero.

use vstd::prelude::*;
use crate::ieee::{is_finite, is_nan, is_zero, same_number, value, values, ONE};
use geometric_algebra::simd::{Simd32x2, Simd32x4};
use geometric_algebra::Transformation;

verus! {

/// A weighted point: the coefficients of `e123`, `-e023`, `e013` and `-e012`,
/// that is the weight, then `x`, `y` and `z` times the weight.
///
/// Four of them also serve as the columns of a 4×4 matrix.
#[derive(Clone, Copy, Debug, PartialEq, Eq)]
pub struct Point {
    pub g0: [u32; 4],
}

/// A rotation about an axis through the origin: the coefficients of `1`,
/// `e23`, `-e13` and `e12`.
#[derive(Clone, Copy, Debug, PartialEq, Eq)]
pub struct Rotor {
    pub g0: [u32; 4],
}

/// A rigid motion: in `g0` the coefficients of `1`, `e23`, `-e13` and `e12`,
/// in `g1` those of `e0123`, `e01`, `e02` and `e03`.
#[derive(Clone, Copy, Debug, PartialEq, Eq)]
pub struct Motor {
    pub g0: [u32; 4],
    pub g1: [u32; 4],
}

impl View for Point {
    type V = Seq<u32>;

    /// The four numbers of the point.
    open spec fn view(&self) -> Seq<u32> {
        values(self.g0@)
    }
}

impl View for Rotor {
    type V = Seq<u32>;

    /// The four numbers of the rotor.
    open spec fn view(&self) -> Seq<u32> {
        values(self.g0@)
    }
}

impl View for Motor {
    type V = Seq<u32>;

    /// The eight numbers of the motor, those of `g0` first.
    open spec fn view(&self) -> Seq<u32> {
        values(self.g0@ + self.g1@)
    }
}

/// The numbers of the point to which the motor `m` takes the point `p`.
pub uninterp spec fn moved_point(m: Seq<u32>, p: Seq<u32>) -> Seq<u32>;

/// The number `s * c`: a coefficient `c` of a point, scaled by `s`.
pub uninterp spec fn scaled(s: u32, c: u32) -> u32;

/// The number `a + b`: the sum of two coefficients of points.
pub uninterp spec fn added(a: u32, b: u32) -> u32;

/// The numbers of the point `s * p`: each coefficient scaled by `s`.
pub open spec fn scaled_point(s: u32, p: Seq<u32>) -> Seq<u32> {
    Seq::new(p.len(), |k: int| scaled(s, p[k]))
}

/// The numbers of the point `p + q`: the sums of their coefficients.
pub open spec fn sum_of_points(p: Seq<u32>, q: Seq<u32>) -> Seq<u32> {
    Seq::new(p.len(), |k: int| added(p[k], q[k]))
}

/// What holds of a product `c` of the numbers `a` and `b` where one of them
/// is one or zero: one times a number is that number, and zero times a
/// finite number is a zero.
pub open spec fn product_by_unit(a: u32, b: u32, c: u32) -> bool {
    &&& a == ONE ==> c == b
    &&& b == ONE ==> c == a
    &&& is_zero(a) && is_finite(b) ==> is_zero(c)
    &&& is_zero(b) && is_finite(a) ==> is_zero(c)
}

/// What holds of a sum `c` of the numbers `a` and `b` where one of them is a
/// zero: it equals the other, unless that is NaN.
pub open spec fn sum_with_zero(a: u32, b: u32, c: u32) -> bool {
    &&& is_zero(b) && !is_nan(a) ==> same_number(c, a)
    &&& is_zero(a) && !is_nan(b) ==> same_number(c, b)
}

/// `Transformation<Point> for Motor` of `geometric_algebra::ppga3d`: the
/// sandwich `m p m~`. Claims that the numbers of the result are `moved_point`
/// of the numbers given.
#[verifier::external_body]
pub(crate) fn transformation(m: &Motor, p: &Point) -> (r: Point)
    ensures
        r@ == moved_point(m@, p@),
{
    let g0 = Simd32x4 { u32x4: m.g0 };
    let m = geometric_algebra::ppga3d::Motor { g0, g1: Simd32x4 { u32x4: m.g1 } };
    let p = geometric_algebra::ppga3d::Point { g0: Simd32x4 { u32x4: p.g0 } };
    let r = m.transformation(p);
    Point { g0: [r.g0[0].to_bits(), r.g0[1].to_bits(), r.g0[2].to_bits(), r.g0[3].to_bits()] }
}

/// `Mul<Point> for Scalar` of `geometric_algebra::ppga3d`, which multiplies
/// each coefficient of the point by the scalar. Claims that each number of
/// the result is `scaled` of the scalar and the coefficient, and of it what
/// multiplication by one and by zero gives.
#[verifier::external_body]
pub(crate) fn mul_scalar_point(s: u32, p: &Point) -> (r: Point)
    ensures
        forall|k: int| 0 <= k < 4 ==> #[trigger] r@[k] == scaled(value(s), p@[k]),
        forall|k: int| 0 <= k < 4 ==> product_by_unit(value(s), p@[k], #[trigger] r@[k]),
{
    let s = geometric_algebra::ppga3d::Scalar { g0: Simd32x2 { u32x2: [s, s] }[0] };
    let p = geometric_algebra::ppga3d::Point { g0: Simd32x4 { u32x4: p.g0 } };
    let r = s * p;
    Point { g0: [r.g0[0].to_bits(), r.g0[1].to_bits(), r.g0[2].to_bits(), r.g0[3].to_bits()] }
}

/// `Add<Point> for Point` of `geometric_algebra::ppga3d`, which adds
/// coefficient by coefficient. Claims that each number of the result is
/// `added` of the two coefficients, and of it what the addition of a zero
/// gives.
#[verifier::external_body]
pub(crate) fn add_points(p: &Point, q: &Point) -> (r: Point)
    ensures
        forall|k: int| 0 <= k < 4 ==> #[trigger] r@[k] == added(p@[k], q@[k]),
        forall|k: int| 0 <= k < 4 ==> sum_with_zero(p@[k], q@[k], #[trigger] r@[k]),
{
    let p = geometric_algebra::ppga3d::Point { g0: Simd32x4 { u32x4: p.g0 } };
    let q = geometric_algebra::ppga3d::Point { g0: Simd32x4 { u32x4: q.g0 } };
    let r = p + q;
    Point { g0: [r.g0[0].to_bits(), r.g0[1].to_bits(), r.g0[2].to_bits(), r.g0[3].to_bits()] }
}

} // verus!
