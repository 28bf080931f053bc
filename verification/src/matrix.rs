//! 4×4 matrices, held as four columns.

use vstd::prelude::*;
use crate::ieee::{is_finite, is_nan, is_zero, same_number, ONE, ZERO};
use crate::pga3d::{
    add_points, mul_scalar_point, product_by_unit, scaled_point, sum_of_points, sum_with_zero,
    Point,
};

verus! {

/// The numbers of the combination of the columns of `a` with the numbers
/// `c` as weights: `c[0] * a[0] + c[1] * a[1] + c[2] * a[2] + c[3] * a[3]`,
/// summed from the left. Coordinate `k` of it is made of the coordinates `k`
/// of the columns.
pub open spec fn combination(a: Seq<Point>, c: Seq<u32>) -> Seq<u32> {
    sum_of_points(
        sum_of_points(
            sum_of_points(scaled_point(c[0], a[0]@), scaled_point(c[1], a[1]@)),
            scaled_point(c[2], a[2]@),
        ),
        scaled_point(c[3], a[3]@),
    )
}

/// The numbers `c` are those of column `j` of the identity: one in place
/// `j`, a zero in the others.
pub open spec fn is_unit_column(c: Seq<u32>, j: int) -> bool {
    forall|k: int| 0 <= k < 4 ==> if k == j { #[trigger] c[k] == ONE } else { is_zero(c[k]) }
}

/// The matrix is the identity.
pub open spec fn is_identity(m: Seq<Point>) -> bool {
    forall|j: int| 0 <= j < 4 ==> is_unit_column(#[trigger] m[j]@, j)
}

/// Every entry of the matrix is a finite number.
pub open spec fn is_finite_matrix(m: Seq<Point>) -> bool {
    forall|j: int, k: int| 0 <= j < 4 && 0 <= k < 4 ==> is_finite(#[trigger] m[j]@[k])
}

/// The numbers `p` and `q` are equal, one by one.
pub open spec fn same_numbers(p: Seq<u32>, q: Seq<u32>) -> bool {
    forall|k: int| 0 <= k < 4 ==> same_number(#[trigger] p[k], q[k])
}

/// The matrices `m` and `n` are equal, entry by entry.
pub open spec fn same_matrix(m: Seq<Point>, n: Seq<Point>) -> bool {
    forall|j: int| 0 <= j < 4 ==> same_numbers(#[trigger] m[j]@, n[j]@)
}

/// A sum of four terms, taken from the left, of which all but term `j` are
/// zeros equals term `j`.
proof fn lemma_sum_of_one_term(x: Seq<u32>, s1: u32, s2: u32, s3: u32, j: int)
    requires
        x.len() == 4,
        0 <= j < 4,
        !is_nan(x[j]),
        forall|m: int| 0 <= m < 4 && m != j ==> is_zero(#[trigger] x[m]),
        sum_with_zero(x[0], x[1], s1),
        sum_with_zero(s1, x[2], s2),
        sum_with_zero(s2, x[3], s3),
    ensures
        same_number(s3, x[j]),
{
    assert(is_zero(x[0]) || j == 0);
    assert(is_zero(x[1]) || j == 1);
    assert(is_zero(x[2]) || j == 2);
    assert(is_zero(x[3]) || j == 3);
}

fn combine(a: &[Point; 4], c: &Point) -> (r: Point)
    ensures
        r@ == combination(a@, c@),
        is_identity(a@) && (forall|k: int| 0 <= k < 4 ==> is_finite(#[trigger] c@[k]))
            ==> same_numbers(r@, c@),
        forall|j: int| 0 <= j < 4 && is_unit_column(c@, j) && is_finite_matrix(a@)
            ==> same_numbers(r@, #[trigger] a[j]@),
{
    let t0 = mul_scalar_point(c.g0[0], &a[0]);
    let t1 = mul_scalar_point(c.g0[1], &a[1]);
    let t2 = mul_scalar_point(c.g0[2], &a[2]);
    let t3 = mul_scalar_point(c.g0[3], &a[3]);
    let s1 = add_points(&t0, &t1);
    let s2 = add_points(&s1, &t2);
    let r = add_points(&s2, &t3);
    proof {
        assert(t0@ =~= scaled_point(c@[0], a[0]@));
        assert(t1@ =~= scaled_point(c@[1], a[1]@));
        assert(t2@ =~= scaled_point(c@[2], a[2]@));
        assert(t3@ =~= scaled_point(c@[3], a[3]@));
        assert(s1@ =~= sum_of_points(t0@, t1@));
        assert(s2@ =~= sum_of_points(s1@, t2@));
        assert(r@ =~= sum_of_points(s2@, t3@));
        assert forall|k: int| 0 <= k < 4 implies {
            &&& product_by_unit(c@[0], a[0]@[k], t0@[k])
            &&& product_by_unit(c@[1], a[1]@[k], t1@[k])
            &&& product_by_unit(c@[2], a[2]@[k], t2@[k])
            &&& product_by_unit(c@[3], a[3]@[k], t3@[k])
            &&& sum_with_zero(t0@[k], t1@[k], s1@[k])
            &&& sum_with_zero(s1@[k], t2@[k], s2@[k])
            &&& sum_with_zero(s2@[k], t3@[k], #[trigger] r@[k])
        } by {}
        if is_identity(a@) && (forall|k: int| 0 <= k < 4 ==> is_finite(#[trigger] c@[k])) {
            assert forall|k: int| 0 <= k < 4 implies same_number(#[trigger] r@[k], c@[k]) by {
                let x = seq![t0@[k], t1@[k], t2@[k], t3@[k]];
                assert(is_unit_column(a@[0]@, 0) && is_unit_column(a@[1]@, 1));
                assert(is_unit_column(a@[2]@, 2) && is_unit_column(a@[3]@, 3));
                assert(is_finite(c@[0]) && is_finite(c@[1]) && is_finite(c@[2]) && is_finite(c@[3]));
                assert(x[k] == c@[k]);
                lemma_sum_of_one_term(x, s1@[k], s2@[k], r@[k], k);
            }
        }
        assert forall|j: int| 0 <= j < 4 && is_unit_column(c@, j) && is_finite_matrix(a@)
            implies same_numbers(r@, #[trigger] a[j]@) by {
            assert forall|k: int| 0 <= k < 4 implies same_number(#[trigger] r@[k], a[j]@[k]) by {
                let x = seq![t0@[k], t1@[k], t2@[k], t3@[k]];
                assert(is_finite(a@[0]@[k]) && is_finite(a@[1]@[k]));
                assert(is_finite(a@[2]@[k]) && is_finite(a@[3]@[k]));
                assert(c@[j] == ONE);
                assert(is_zero(c@[0]) || j == 0);
                assert(is_zero(c@[1]) || j == 1);
                assert(is_zero(c@[2]) || j == 2);
                assert(is_zero(c@[3]) || j == 3);
                assert(x[j] == a[j]@[k]);
                lemma_sum_of_one_term(x, s1@[k], s2@[k], r@[k], j);
            }
        }
    }
    r
}

/// The product `a × b` of two matrices given by their columns: column `i`
/// of the product combines the columns of `a` with column `i` of `b` as
/// weights.
///
/// The identity is neutral on either side, for a matrix of finite entries:
/// the product then equals the other factor, entry by entry.
pub fn matrix_multiplication(a: &[Point; 4], b: &[Point; 4]) -> (r: [Point; 4])
    ensures
        forall|i: int| 0 <= i < 4 ==> (#[trigger] r[i])@ == combination(a@, b[i]@),
        is_identity(a@) && is_finite_matrix(b@) ==> same_matrix(r@, b@),
        is_identity(b@) && is_finite_matrix(a@) ==> same_matrix(r@, a@),
{
    let r = [combine(a, &b[0]), combine(a, &b[1]), combine(a, &b[2]), combine(a, &b[3])];
    proof {
        if is_identity(a@) && is_finite_matrix(b@) {
            assert forall|j: int| 0 <= j < 4 implies same_numbers(#[trigger] r@[j]@, b@[j]@) by {
                assert forall|k: int| 0 <= k < 4 implies is_finite(#[trigger] b@[j]@[k]) by {}
            }
        }
        if is_identity(b@) && is_finite_matrix(a@) {
            assert forall|j: int| 0 <= j < 4 implies same_numbers(#[trigger] r@[j]@, a@[j]@) by {
                assert(is_unit_column(b@[j]@, j));
            }
        }
    }
    r
}

/// The perspective matrix with the given entries: the scale of `x`, the
/// scale of `y`, and the factor and the offset of the depth. Its columns are
/// `(x_scale, 0, 0, 0)`, `(0, y_scale, 0, 0)`, `(0, 0, depth_factor, 1)` and
/// `(0, 0, depth_offset, 0)`. The fourth coordinate of the image of a point
/// is the `z` of the point, so its depth, once divided, is
/// `depth_factor + depth_offset / z`.
///
/// For a vertical field of view `fov` and an aspect ratio `aspect`, between
/// the planes `z = near` and `z = far`, the entries are `h / aspect` and `h`
/// with `h = 1 / tan(fov / 2)`, and `-far * d` and `near * far * d` with
/// `d = 1 / (near - far)`.
pub fn perspective_matrix(x_scale: u32, y_scale: u32, depth_factor: u32, depth_offset: u32) -> (r: [Point; 4])
    ensures
        r[0].g0@ == seq![x_scale, ZERO, ZERO, ZERO],
        r[1].g0@ == seq![ZERO, y_scale, ZERO, ZERO],
        r[2].g0@ == seq![ZERO, ZERO, depth_factor, ONE],
        r[3].g0@ == seq![ZERO, ZERO, depth_offset, ZERO],
{
    let r = [
        Point { g0: [x_scale, ZERO, ZERO, ZERO] },
        Point { g0: [ZERO, y_scale, ZERO, ZERO] },
        Point { g0: [ZERO, ZERO, depth_factor, ONE] },
        Point { g0: [ZERO, ZERO, depth_offset, ZERO] },
    ];
    assert(r[0].g0@ =~= seq![x_scale, ZERO, ZERO, ZERO]);
    assert(r[1].g0@ =~= seq![ZERO, y_scale, ZERO, ZERO]);
    assert(r[2].g0@ =~= seq![ZERO, ZERO, depth_factor, ONE]);
    assert(r[3].g0@ =~= seq![ZERO, ZERO, depth_offset, ZERO]);
    r
}

} // verus!
