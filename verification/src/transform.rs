//! Building rigid motions, reading them back, and laying them out as matrices.

use vstd::prelude::*;
use crate::ieee::{
    doubled, doubles_exactly, halved, halves_exactly, is_finite, is_zero, lemma_constants_denote_themselves, lemma_halved_then_doubled,
    lemma_negated, lemma_same_number_patterns, negate, negated, same_number, value, values, HALF,
    MINUS_HALF, MINUS_TWO, ONE, TWO, ZERO,
};
use crate::pga2d;
use crate::pga2d::{div_motor_rotor, motor_over_rotor, mul_scalars, product};
use crate::pga3d;
use crate::polar::{angle_of, arg, from_polar, polar};

verus! {

/// The coefficients of a line after a quarter turn clockwise of its
/// direction: `0`, then that of `e1`, then minus that of `e2`.
pub open spec fn quarter_turn(v: Seq<u32>) -> Seq<u32> {
    seq![ZERO, v[2], negated(v[1])]
}

/// Turns the direction of a line by a quarter turn clockwise and moves the
/// line through the origin.
pub fn rotate_90_degree_clockwise(v: pga2d::Plane) -> (r: pga2d::Plane)
    ensures
        r.g0@ == quarter_turn(v.g0@),
{
    let r = pga2d::Plane { g0: [ZERO, v.g0[2], negate(v.g0[1])] };
    assert(r.g0@ =~= quarter_turn(v.g0@));
    r
}

/// A line turned four times has its direction back, and the pattern of each
/// coefficient with it; turned twice it has the opposite direction.
pub proof fn lemma_quarter_turns(v: Seq<u32>)
    requires
        v.len() == 3,
    ensures
        quarter_turn(quarter_turn(v)) == seq![ZERO, negated(v[1]), negated(v[2])],
        quarter_turn(quarter_turn(quarter_turn(quarter_turn(v)))) == seq![ZERO, v[1], v[2]],
{
    lemma_negated(v[1]);
    lemma_negated(v[2]);
    let twice = quarter_turn(quarter_turn(v));
    assert(twice =~= seq![ZERO, negated(v[1]), negated(v[2])]);
    assert(quarter_turn(quarter_turn(twice)) =~= seq![ZERO, v[1], v[2]]);
}

/// The point of weight one at `(v[0], v[1])`.
pub fn vec_to_point(v: [u32; 2]) -> (r: pga2d::Point)
    ensures
        r.g0@ == seq![ONE, v[0], v[1]],
{
    let r = pga2d::Point { g0: [ONE, v[0], v[1]] };
    assert(r.g0@ =~= seq![ONE, v[0], v[1]]);
    r
}

/// The point of weight `w` at `(v[0], v[1])`: its coefficients are `w`,
/// `v[0] * w` and `v[1] * w`.
pub fn weighted_vec_to_point(w: u32, v: [u32; 2]) -> (r: pga2d::Point)
    ensures
        r.g0[0] == w,
        value(r.g0[1]) == product(value(v[0]), value(w)),
        value(r.g0[2]) == product(value(v[1]), value(w)),
{
    pga2d::Point { g0: [w, mul_scalars(v[0], w), mul_scalars(v[1], w)] }
}

/// The motor of the rotation about the origin whose half angle has the
/// given cosine and sine: the two numbers, and zero for the translation.
pub fn half_angle_motor(cosine: u32, sine: u32) -> (r: pga2d::Motor)
    ensures
        r.g0@ == seq![cosine, sine, ZERO, ZERO],
{
    let r = pga2d::Motor { g0: [cosine, sine, ZERO, ZERO] };
    assert(r.g0@ =~= seq![cosine, sine, ZERO, ZERO]);
    r
}

/// The motor of the rotation about the origin by `angle`, in radians and
/// counter-clockwise: the cosine and the sine of half the angle, as
/// [`half_angle_motor`] lays them out. Half the angle, because the motor is
/// applied on both sides of what it moves.
///
/// The cosine and the sine are those of the machine: the two first
/// coefficients are what it gave for the number `angle * 0.5` and the
/// magnitude one.
pub fn rotate2d(angle: u32) -> (r: pga2d::Motor)
    ensures
        polar(ONE, product(value(angle), HALF), value(r.g0[0]), value(r.g0[1])),
        r.g0[2] == ZERO,
        r.g0[3] == ZERO,
{
    proof {
        lemma_constants_denote_themselves();
    }
    let half = mul_scalars(angle, HALF);
    let unit = from_polar(ONE, half);
    half_angle_motor(unit[0], unit[1])
}

/// Twice an angle.
pub fn double_angle(half: u32) -> (r: u32)
    ensures
        value(r) == product(TWO, value(half)),
{
    proof {
        lemma_constants_denote_themselves();
    }
    mul_scalars(TWO, half)
}

/// The angle of the rotation of a motor, in radians: twice the angle of the
/// complex number made of its scalar and its `e12` coefficient. That angle
/// lies between -π and π, so the result lies between -2π and 2π. It is taken
/// from both coefficients at once: it is found in every quadrant, and a
/// motor need not have norm one.
///
/// The arc tangent is that of the machine: the result is the double of
/// what it gave for the two coefficients.
pub fn rotation2d(motor: pga2d::Motor) -> (r: u32)
    ensures
        exists|half: u32|
            angle_of(value(motor.g0[0]), value(motor.g0[1]), value(half)) && value(r)
                == product(TWO, value(half)),
{
    let half = arg(motor.g0[0], motor.g0[1]);
    double_angle(half)
}

/// Both coordinates of the vector halve exactly: each is a zero, or finite
/// with a half that is a normal number.
pub open spec fn halves_exactly2(v: Seq<u32>) -> bool {
    halves_exactly(v[0]) && halves_exactly(v[1])
}

/// The numbers `m` are those of the motor that translates by `v`, for a
/// vector that halves exactly: one, zero, minus the half of `v[1]`, and the
/// half of `v[0]`.
pub open spec fn is_translator_of(m: Seq<u32>, v: Seq<u32>) -> bool {
    &&& m[0] == ONE
    &&& m[1] == ZERO
    &&& m[2] == negated(halved(v[1]))
    &&& m[3] == halved(v[0])
}

/// The motor that translates by the vector `v`: `(1, 0, -0.5 * v[1], 0.5 * v[0])`.
///
/// Of a vector that halves exactly the two halves are exact.
pub fn translate2d(v: [u32; 2]) -> (r: pga2d::Motor)
    ensures
        r.g0[0] == ONE,
        r.g0[1] == ZERO,
        value(r.g0[2]) == product(MINUS_HALF, value(v[1])),
        value(r.g0[3]) == product(HALF, value(v[0])),
        halves_exactly2(values(v@)) ==> is_translator_of(r@, values(v@)),
{
    proof {
        lemma_constants_denote_themselves();
    }
    pga2d::Motor { g0: [ONE, ZERO, mul_scalars(MINUS_HALF, v[1]), mul_scalars(HALF, v[0])] }
}

/// The numbers of the translation that the motor `m` holds: `m` is divided
/// by its own rotor, which leaves the translation alone; twice the fourth
/// number of the quotient is `x`, minus twice the third is `y`.
pub open spec fn translation(m: Seq<u32>) -> Seq<u32> {
    let unrotated = motor_over_rotor(m, seq![m[0], m[1]]);
    seq![product(TWO, unrotated[3]), product(MINUS_TWO, unrotated[2])]
}

/// The translation of a motor. A motor whose rotor has norm zero has none:
/// the numbers returned are then infinities or NaN.
///
/// It reads back what [`translate2d`] was given: of the motor that
/// translates by a vector `v` that halves exactly, the translation is `v`,
/// number for number.
pub fn translation2d(motor: pga2d::Motor) -> (r: [u32; 2])
    ensures
        values(r@) == translation(motor@),
        forall|v: Seq<u32>|
            halves_exactly2(v) && #[trigger] is_translator_of(motor@, v) ==> same_number(
                values(r@)[0],
                v[0],
            ) && same_number(values(r@)[1], v[1]),
{
    let rotor = pga2d::Rotor { g0: [motor.g0[0], motor.g0[1]] };
    let unrotated = div_motor_rotor(&motor, &rotor);
    let r = [mul_scalars(TWO, unrotated.g0[3]), mul_scalars(MINUS_TWO, unrotated.g0[2])];
    proof {
        lemma_constants_denote_themselves();
        assert(rotor@ =~= seq![motor@[0], motor@[1]]);
        assert(values(r@) =~= translation(motor@));
        assert forall|v: Seq<u32>| halves_exactly2(v) && #[trigger] is_translator_of(motor@, v)
            implies same_number(values(r@)[0], v[0]) && same_number(values(r@)[1], v[1]) by {
            lemma_halved_then_doubled(v[0]);
            lemma_halved_then_doubled(v[1]);
            assert(rotor@[0] == ONE && is_zero(rotor@[1]));
            assert(is_finite(motor@[1]) && is_finite(motor@[2]) && is_finite(motor@[3]));
            lemma_same_number_patterns(unrotated@[3], motor@[3]);
            lemma_same_number_patterns(unrotated@[2], motor@[2]);
            // The quotient has the two coefficients of the motor, or zeros
            // for its zeros; either way it doubles exactly.
            lemma_negated(halved(v[1]));
            assert(doubles_exactly(unrotated@[3]) && doubles_exactly(unrotated@[2]));
            assert(values(r@)[0] == doubled(unrotated@[3]));
            assert(values(r@)[1] == negated(doubled(unrotated@[2])));
            lemma_negated(doubled(unrotated@[2]));
        }
    }
    r
}

/// The three last coefficients of the rotor are the coordinates of the axis,
/// each times `sine`.
pub open spec fn is_axis_times(r: pga3d::Rotor, axis: Seq<u32>, sine: u32) -> bool {
    &&& value(r.g0[1]) == product(value(axis[0]), value(sine))
    &&& value(r.g0[2]) == product(value(axis[1]), value(sine))
    &&& value(r.g0[3]) == product(value(axis[2]), value(sine))
}

/// The rotor of the rotation about `axis` whose half angle has the given
/// cosine and sine: `(cosine, axis[0] * sine, axis[1] * sine, axis[2] * sine)`.
///
/// The axis is taken as it is. Only for an axis of length one is the result
/// a rotation.
pub fn half_angle_rotor(cosine: u32, sine: u32, axis: &[u32; 3]) -> (r: pga3d::Rotor)
    ensures
        r.g0[0] == cosine,
        is_axis_times(r, axis@, sine),
{
    pga3d::Rotor {
        g0: [cosine, mul_scalars(axis[0], sine), mul_scalars(axis[1], sine), mul_scalars(axis[2], sine)],
    }
}

/// The rotor of the rotation by `angle`, in radians, about `axis`: the
/// cosine of half the angle, and the sine of half the angle times each
/// coordinate of the axis, as [`half_angle_rotor`] lays them out. A quarter
/// turn about the `y` axis takes the `x` axis to the `z` axis.
///
/// The axis must have length one; it is not normalised here. The cosine and
/// the sine are those of the machine: the first coefficient and the factor
/// of the axis are what it gave for the number `angle * 0.5` and the
/// magnitude one.
pub fn rotate_around_axis(angle: u32, axis: &[u32; 3]) -> (r: pga3d::Rotor)
    ensures
        exists|sine: u32|
            polar(ONE, product(value(angle), HALF), value(r.g0[0]), value(sine)) && is_axis_times(
                r,
                axis@,
                sine,
            ),
{
    proof {
        lemma_constants_denote_themselves();
    }
    let half = mul_scalars(angle, HALF);
    let unit = from_polar(ONE, half);
    half_angle_rotor(unit[0], unit[1], axis)
}

/// The motor of space for a motor of the plane: its rotation turns about
/// the `z` axis, its translation stays in `x` and `y`, and `z` is left
/// alone. The scalar and the `e12` coefficient keep their names; the
/// coefficient of `-e02` becomes that of `e01` with its sign changed, and
/// that of `e01` becomes that of `e02`.
pub fn motor2d_to_motor3d(motor: &pga2d::Motor) -> (r: pga3d::Motor)
    ensures
        r.g0@ == seq![motor.g0[0], ZERO, ZERO, motor.g0[1]],
        r.g1@ == seq![ZERO, negated(motor.g0[3]), motor.g0[2], ZERO],
{
    let r = pga3d::Motor {
        g0: [motor.g0[0], ZERO, ZERO, motor.g0[1]],
        g1: [ZERO, negate(motor.g0[3]), motor.g0[2], ZERO],
    };
    assert(r.g0@ =~= seq![motor.g0[0], ZERO, ZERO, motor.g0[1]]);
    assert(r.g1@ =~= seq![ZERO, negated(motor.g0[3]), motor.g0[2], ZERO]);
    r
}

/// The numbers of the point whose coefficient `index` is one and whose
/// others are zero, among `n` coefficients.
pub open spec fn unit_numbers(n: nat, index: int) -> Seq<u32> {
    Seq::new(n, |i: int| if i == index { ONE } else { ZERO })
}

/// The numbers `s` with the first moved behind the others: a point with its
/// weight last, as a matrix row holds it.
pub open spec fn weight_last(s: Seq<u32>) -> Seq<u32> {
    Seq::new(s.len(), |i: int| s[(i + 1) % (s.len() as int)])
}

/// Row of the 3×3 matrix of the motor `m` that belongs to coefficient
/// `index`: where `m` takes the unit point of that coefficient, weight last.
pub open spec fn mat3_row(m: Seq<u32>, index: int) -> Seq<u32> {
    weight_last(pga2d::moved_point(m, unit_numbers(3, index)))
}

/// Row of the 4×4 matrix of the motor `m` that belongs to coefficient
/// `index`: where `m` takes the unit point of that coefficient, weight last.
pub open spec fn mat4_row(m: Seq<u32>, index: int) -> Seq<u32> {
    weight_last(pga3d::moved_point(m, unit_numbers(4, index)))
}

fn row_of_mat3(motor: &pga2d::Motor, index: usize) -> (r: pga2d::Point)
    requires
        index < 3,
    ensures
        r@ == mat3_row(motor@, index as int),
{
    let unit = pga2d::Point {
        g0: [
            if index == 0 { ONE } else { ZERO },
            if index == 1 { ONE } else { ZERO },
            if index == 2 { ONE } else { ZERO },
        ],
    };
    let image = pga2d::transformation(motor, &unit);
    let r = pga2d::Point { g0: [image.g0[1], image.g0[2], image.g0[0]] };
    proof {
        lemma_constants_denote_themselves();
        assert(unit@ =~= unit_numbers(3, index as int));
        assert(r@ =~= mat3_row(motor@, index as int));
    }
    r
}

fn row_of_mat4(motor: &pga3d::Motor, index: usize) -> (r: pga3d::Point)
    requires
        index < 4,
    ensures
        r@ == mat4_row(motor@, index as int),
{
    let unit = pga3d::Point {
        g0: [
            if index == 0 { ONE } else { ZERO },
            if index == 1 { ONE } else { ZERO },
            if index == 2 { ONE } else { ZERO },
            if index == 3 { ONE } else { ZERO },
        ],
    };
    let image = pga3d::transformation(motor, &unit);
    let r = pga3d::Point { g0: [image.g0[1], image.g0[2], image.g0[3], image.g0[0]] };
    proof {
        lemma_constants_denote_themselves();
        assert(unit@ =~= unit_numbers(4, index as int));
        assert(r@ =~= mat4_row(motor@, index as int));
    }
    r
}

/// The 3×3 matrix of a motor of the plane: its rows are the images of the
/// unit points of `x`, of `y` and of the weight, in this order, each with its
/// weight last.
pub fn motor2d_to_mat3(motor: &pga2d::Motor) -> (r: [pga2d::Point; 3])
    ensures
        r[0]@ == mat3_row(motor@, 1),
        r[1]@ == mat3_row(motor@, 2),
        r[2]@ == mat3_row(motor@, 0),
{
    [row_of_mat3(motor, 1), row_of_mat3(motor, 2), row_of_mat3(motor, 0)]
}

/// The 4×4 matrix of a motor of space: its rows are the images of the unit
/// points of `x`, of `y`, of `z` and of the weight, in this order, each with
/// its weight last.
pub fn motor3d_to_mat4(motor: &pga3d::Motor) -> (r: [pga3d::Point; 4])
    ensures
        r[0]@ == mat4_row(motor@, 1),
        r[1]@ == mat4_row(motor@, 2),
        r[2]@ == mat4_row(motor@, 3),
        r[3]@ == mat4_row(motor@, 0),
{
    [row_of_mat4(motor, 1), row_of_mat4(motor, 2), row_of_mat4(motor, 3), row_of_mat4(motor, 0)]
}

} // verus!
