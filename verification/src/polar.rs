//! Angles, by way of the complex numbers of the `geometric_algebra` crate.
//!
//! A rotor of the plane is a complex number of modulus one: its polar form
//! gives the cosine and the sine of an angle, and its argument gives the
//! angle back.
//!
//! How close the cosine, the sine and the arc tangent of the machine come is
//! not fixed, and two calls on the same angle need not agree. So what they
//! give has no name as a function of the arguments. It is told by a
//! relation: these numbers are what one call gave for those arguments.

use vstd::prelude::*;
use crate::ieee::value;
use geometric_algebra::simd::Simd32x2;

verus! {

/// The numbers `re` and `im` are what the machine gave for
/// `magnitude * cos(angle)` and `magnitude * sin(angle)`.
pub uninterp spec fn polar(magnitude: u32, angle: u32, re: u32, im: u32) -> bool;

/// The number `angle` is what the machine gave for the angle of the complex
/// number `re + im i`: the arc tangent of `im / re`, in the quadrant of the
/// two.
pub uninterp spec fn angle_of(re: u32, im: u32, angle: u32) -> bool;

/// `ComplexNumber::from_polar` of `geometric_algebra::epga1d`: the numbers
/// `magnitude * cos(angle)` and `magnitude * sin(angle)`, in this order.
/// Claims that the two numbers returned are what the call gave for the two
/// numbers handed in, and nothing of how close they come.
#[verifier::external_body]
pub(crate) fn from_polar(magnitude: u32, angle: u32) -> (r: [u32; 2])
    ensures
        polar(value(magnitude), value(angle), value(r[0]), value(r[1])),
{
    let f = Simd32x2 { u32x2: [magnitude, angle] };
    let c = geometric_algebra::epga1d::ComplexNumber::from_polar(f[0], f[1]);
    [c.g0[0].to_bits(), c.g0[1].to_bits()]
}

/// `ComplexNumber::arg` of `geometric_algebra::epga1d`: the angle of the
/// complex number, the arc tangent of `im / re` in the quadrant of the two.
/// Claims that the number returned is what the call gave for the two
/// numbers handed in, and nothing of how close it comes.
#[verifier::external_body]
pub(crate) fn arg(re: u32, im: u32) -> (r: u32)
    ensures
        angle_of(value(re), value(im), value(r)),
{
    let c = geometric_algebra::epga1d::ComplexNumber { g0: Simd32x2 { u32x2: [re, im] } };
    c.arg().to_bits()
}

} // verus!
