//! Elements of the plane-based geometric algebra of the plane, and the
//! products on them that are left to the `geometric_algebra` crate.
//!
//! An element holds the bit patterns of its coefficients, and two elements
//! are equal when their patterns are. The view of an element is the sequence
//! of numbers that the patterns denote (see [`crate::ieee::value`]).
//!
//! The products are single precision arithmetic on those numbers, done by
//! the crate. Each of them has a name here instead of a formula, and what is
//! taken on trust is that the crate computes it: equal numbers give equal
//! numbers, whatever the NaN patterns. This holds where every operation is
//! rounded to single precision as IEEE 754 asks, subnormal numbers included;
//! it does not on a machine that takes subnormal numbers for zero.
//!
//! Of the product of two numbers and of the quotient of a motor by a rotor
//! a little more is taken on trust, for the translations: what a factor of
//! two or of one half does to a number, and that the rotor `1` divides
//! nothing away.

use vstd::prelude::*;
use crate::ieee::{
    doubled, doubles_exactly, halved, halves_exactly, is_finite, is_zero, negated, same_number,
    value, values, HALF, MINUS_HALF, MINUS_TWO, ONE, TWO,
};
use geometric_algebra::simd::{Simd32x2, Simd32x3, Simd32x4};
use geometric_algebra::{OuterProduct, RegressiveProduct, Transformation};

verus! {

/// A weighted point: the coefficients of `e12`, `e01` and `-e02`, that is
/// the weight, then `x` and `y` times the weight.
#[derive(Clone, Copy, Debug, PartialEq, Eq)]
pub struct Point {
    pub g0: [u32; 3],
}

/// An oriented line: the coefficients of `e0`, `e2` and `e1`.
#[derive(Clone, Copy, Debug, PartialEq, Eq)]
pub struct Plane {
    pub g0: [u32; 3],
}

/// A rotation about the origin: the coefficients of `1` and `e12`.
#[derive(Clone, Copy, Debug, PartialEq, Eq)]
pub struct Rotor {
    pub g0: [u32; 2],
}

/// A rigid motion: the coefficients of `1`, `e12`, `e01` and `-e02`.
#[derive(Clone, Copy, Debug, PartialEq, Eq)]
pub struct Motor {
    pub g0: [u32; 4],
}

impl View for Point {
    type V = Seq<u32>;

    /// The three numbers of the point.
    open spec fn view(&self) -> Seq<u32> {
        values(self.g0@)
    }
}

impl View for Plane {
    type V = Seq<u32>;

    /// The three numbers of the line.
    open spec fn view(&self) -> Seq<u32> {
        values(self.g0@)
    }
}

impl View for Rotor {
    type V = Seq<u32>;

    /// The two numbers of the rotor.
    open spec fn view(&self) -> Seq<u32> {
        values(self.g0@)
    }
}

impl View for Motor {
    type V = Seq<u32>;

    /// The four numbers of the motor.
    open spec fn view(&self) -> Seq<u32> {
        values(self.g0@)
    }
}

/// The numbers of the point `a ∧ b` in which two lines meet, before it is
/// normalised.
pub uninterp spec fn meet(a: Seq<u32>, b: Seq<u32>) -> Seq<u32>;

/// The numbers of the line `p ∨ q` through two points.
pub uninterp spec fn join(p: Seq<u32>, q: Seq<u32>) -> Seq<u32>;

/// The number `p ∨ l` of a point and a line: its sign tells the side of the
/// line on which the point lies.
pub uninterp spec fn side(p: Seq<u32>, l: Seq<u32>) -> u32;

/// The numbers of the point `p / s`.
pub uninterp spec fn point_over_scalar(p: Seq<u32>, s: u32) -> Seq<u32>;

/// The number `a * b`.
pub uninterp spec fn product(a: u32, b: u32) -> u32;

/// The numbers of the motor `m / r`.
pub uninterp spec fn motor_over_rotor(m: Seq<u32>, r: Seq<u32>) -> Seq<u32>;

/// The numbers of the point to which the motor `m` takes the point `p`.
pub uninterp spec fn moved_point(m: Seq<u32>, p: Seq<u32>) -> Seq<u32>;

/// What holds of a product `c` of the numbers `a` and `b` where `a` is two or
/// one half, with either sign: a number that doubles or halves exactly has
/// its exponent moved by one, and takes the sign of the product.
pub open spec fn product_by_two_or_half(a: u32, b: u32, c: u32) -> bool {
    &&& a == TWO && doubles_exactly(b) ==> c == doubled(b)
    &&& a == MINUS_TWO && doubles_exactly(b) ==> c == negated(doubled(b))
    &&& a == HALF && halves_exactly(b) ==> c == halved(b)
    &&& a == MINUS_HALF && halves_exactly(b) ==> c == negated(halved(b))
}

/// What holds of the quotient `q` of the motor `m` by the rotor `r` where
/// `r` is one, with no `e12` part: the two translation coefficients of a
/// finite motor come out as they went in. The inverse of that rotor is the
/// rotor itself, so each of the two is the coefficient times one, plus
/// finite numbers times zero.
pub open spec fn quotient_by_rotor_one(m: Seq<u32>, r: Seq<u32>, q: Seq<u32>) -> bool {
    r[0] == ONE && is_zero(r[1]) && is_finite(m[1]) && is_finite(m[2]) && is_finite(m[3])
        ==> same_number(q[2], m[2]) && same_number(q[3], m[3])
}

/// `OuterProduct<Plane> for Plane` of `geometric_algebra::ppga2d`: the point
/// shared by two lines. Claims that the numbers of the result are `meet` of
/// the numbers of the lines.
#[verifier::external_body]
pub(crate) fn outer_product(a: &Plane, b: &Plane) -> (r: Point)
    ensures
        r@ == meet(a@, b@),
{
    let a = geometric_algebra::ppga2d::Plane { g0: Simd32x3 { u32x3: a.g0 } };
    let b = geometric_algebra::ppga2d::Plane { g0: Simd32x3 { u32x3: b.g0 } };
    let r = a.outer_product(b);
    Point { g0: [r.g0[0].to_bits(), r.g0[1].to_bits(), r.g0[2].to_bits()] }
}

/// `RegressiveProduct<Point> for Point` of `geometric_algebra::ppga2d`: the
/// line through two points. Claims that the numbers of the result are `join`
/// of the numbers of the points.
#[verifier::external_body]
pub(crate) fn regressive_point_point(p: &Point, q: &Point) -> (r: Plane)
    ensures
        r@ == join(p@, q@),
{
    let p = geometric_algebra::ppga2d::Point { g0: Simd32x3 { u32x3: p.g0 } };
    let q = geometric_algebra::ppga2d::Point { g0: Simd32x3 { u32x3: q.g0 } };
    let r = p.regressive_product(q);
    Plane { g0: [r.g0[0].to_bits(), r.g0[1].to_bits(), r.g0[2].to_bits()] }
}

/// `RegressiveProduct<Plane> for Point` of `geometric_algebra::ppga2d`: the
/// scalar of a point and a line. Claims that the number returned is `side`
/// of the numbers of the two.
#[verifier::external_body]
pub(crate) fn regressive_point_plane(p: &Point, l: &Plane) -> (r: u32)
    ensures
        value(r) == side(p@, l@),
{
    let p = geometric_algebra::ppga2d::Point { g0: Simd32x3 { u32x3: p.g0 } };
    let l = geometric_algebra::ppga2d::Plane { g0: Simd32x3 { u32x3: l.g0 } };
    p.regressive_product(l).g0.to_bits()
}

/// `Div<Scalar> for Point` of `geometric_algebra::ppga2d`. Claims that the
/// numbers of the result are `point_over_scalar` of the numbers given. A
/// divisor of zero gives infinities or NaN, as the division of the machine does.
#[verifier::external_body]
pub(crate) fn div_point_scalar(p: &Point, s: u32) -> (r: Point)
    ensures
        r@ == point_over_scalar(p@, value(s)),
{
    let p = geometric_algebra::ppga2d::Point { g0: Simd32x3 { u32x3: p.g0 } };
    let s = geometric_algebra::ppga2d::Scalar { g0: Simd32x2 { u32x2: [s, s] }[0] };
    let r = p / s;
    Point { g0: [r.g0[0].to_bits(), r.g0[1].to_bits(), r.g0[2].to_bits()] }
}

/// `Mul<Scalar> for Scalar` of `geometric_algebra::ppga2d`: the product of
/// two numbers in single precision. Claims that the number returned is
/// `product` of the two numbers, and of it what a factor of two or of one
/// half gives.
#[verifier::external_body]
pub(crate) fn mul_scalars(a: u32, b: u32) -> (r: u32)
    ensures
        value(r) == product(value(a), value(b)),
        product_by_two_or_half(value(a), value(b), value(r)),
{
    let f = Simd32x2 { u32x2: [a, b] };
    let a = geometric_algebra::ppga2d::Scalar { g0: f[0] };
    let b = geometric_algebra::ppga2d::Scalar { g0: f[1] };
    (a * b).g0.to_bits()
}

/// `Div<Rotor> for Motor` of `geometric_algebra::ppga2d`: the motor times
/// the inverse of the rotor. Claims that the numbers of the result are
/// `motor_over_rotor` of the numbers given, and of them what a rotor of one
/// gives. A rotor of norm zero gives infinities or NaN.
#[verifier::external_body]
pub(crate) fn div_motor_rotor(m: &Motor, r: &Rotor) -> (q: Motor)
    ensures
        q@ == motor_over_rotor(m@, r@),
        quotient_by_rotor_one(m@, r@, q@),
{
    let m = geometric_algebra::ppga2d::Motor { g0: Simd32x4 { u32x4: m.g0 } };
    let r = geometric_algebra::ppga2d::Rotor { g0: Simd32x2 { u32x2: r.g0 } };
    let q = m / r;
    Motor { g0: [q.g0[0].to_bits(), q.g0[1].to_bits(), q.g0[2].to_bits(), q.g0[3].to_bits()] }
}

/// `Transformation<Point> for Motor` of `geometric_algebra::ppga2d`: the
/// sandwich `m p m~`. Claims that the numbers of the result are `moved_point`
/// of the numbers given.
#[verifier::external_body]
pub(crate) fn transformation(m: &Motor, p: &Point) -> (r: Point)
    ensures
        r@ == moved_point(m@, p@),
{
    let m = geometric_algebra::ppga2d::Motor { g0: Simd32x4 { u32x4: m.g0 } };
    let p = geometric_algebra::ppga2d::Point { g0: Simd32x3 { u32x3: p.g0 } };
    let r = m.transformation(p);
    Point { g0: [r.g0[0].to_bits(), r.g0[1].to_bits(), r.g0[2].to_bits()] }
}

} // verus!
