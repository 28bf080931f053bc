//! Queries on lines and convex polygons of the plane.

use vstd::prelude::*;
use crate::ieee::{at_most, is_at_most, lemma_value_keeps_order, ONE, ZERO};
use crate::pga2d::{
    div_point_scalar, join, meet, outer_product, point_over_scalar, regressive_point_plane,
    regressive_point_point, side, Plane, Point,
};

verus! {

/// The numbers of the point shared by the lines `a` and `b`, of weight one:
/// their outer product over its own weight. Parallel lines meet in a point
/// of weight zero, and the numbers are then infinities or NaN.
pub open spec fn intersection(a: Seq<u32>, b: Seq<u32>) -> Seq<u32> {
    point_over_scalar(meet(a, b), meet(a, b)[0])
}

/// The point in which two lines intersect, with weight one.
///
/// The lines must not be parallel for the result to be a point of the plane;
/// for parallel lines the coefficients returned are infinities or NaN.
pub fn line_line_intersection(a: Plane, b: Plane) -> (r: Point)
    ensures
        r@ == intersection(a@, b@),
{
    let p = outer_product(&a, &b);
    div_point_scalar(&p, p.g0[0])
}

/// The box `(x_min, y_min, x_max, y_max)` has its bounds in order:
/// `x_min <= x_max` and `y_min <= y_max`, none of them NaN.
pub open spec fn box_in_order(bounding_box: Seq<u32>) -> bool {
    at_most(bounding_box[0], bounding_box[2]) && at_most(bounding_box[1], bounding_box[3])
}

/// Tells whether the bounds of a box are in order, as
/// [`aabb_to_convex_polygon`] needs them for the winding of its result.
pub fn is_box_in_order(bounding_box: &[u32; 4]) -> (r: bool)
    ensures
        r == box_in_order(bounding_box@),
{
    is_at_most(bounding_box[0], bounding_box[2]) && is_at_most(bounding_box[1], bounding_box[3])
}

/// The corners of the box `(x_min, y_min, x_max, y_max)` as points of weight
/// one, in the order `(x_min, y_min)`, `(x_min, y_max)`, `(x_max, y_max)`,
/// `(x_max, y_min)`.
///
/// This winding is the one called clockwise here, which
/// [`do_convex_polygons_overlap`] expects. The bounds are taken as they are:
/// where `x_min > x_max` or `y_min > y_max`, but not both, the corners come
/// in the opposite winding, and the overlap test is wrong for them. See
/// [`is_box_in_order`].
pub fn aabb_to_convex_polygon(bounding_box: &[u32; 4]) -> (r: [Point; 4])
    ensures
        r[0].g0@ == seq![ONE, bounding_box[0], bounding_box[1]],
        r[1].g0@ == seq![ONE, bounding_box[0], bounding_box[3]],
        r[2].g0@ == seq![ONE, bounding_box[2], bounding_box[3]],
        r[3].g0@ == seq![ONE, bounding_box[2], bounding_box[1]],
{
    let r = [
        Point { g0: [ONE, bounding_box[0], bounding_box[1]] },
        Point { g0: [ONE, bounding_box[0], bounding_box[3]] },
        Point { g0: [ONE, bounding_box[2], bounding_box[3]] },
        Point { g0: [ONE, bounding_box[2], bounding_box[1]] },
    ];
    assert(r[0].g0@ =~= seq![ONE, bounding_box[0], bounding_box[1]]);
    assert(r[1].g0@ =~= seq![ONE, bounding_box[0], bounding_box[3]]);
    assert(r[2].g0@ =~= seq![ONE, bounding_box[2], bounding_box[3]]);
    assert(r[3].g0@ =~= seq![ONE, bounding_box[2], bounding_box[1]]);
    r
}

/// The vertex after vertex `i` on a polygon of `n` vertices: the last is
/// followed by the first.
pub open spec fn next_index(i: int, n: int) -> int {
    (i + 1) % n
}

/// The numbers of the line of edge `i` of `polygon`, which runs from vertex
/// `i` to the vertex after it.
pub open spec fn edge_line(polygon: Seq<Point>, i: int) -> Seq<u32> {
    join(polygon[i]@, polygon[next_index(i, polygon.len() as int)]@)
}

/// The side of `vertex` against edge `i` of `polygon`. For a polygon wound
/// as [`aabb_to_convex_polygon`] winds it, the number is positive inside the
/// polygon, zero on the line of the edge and negative beyond it.
pub open spec fn edge_side(polygon: Seq<Point>, i: int, vertex: Point) -> u32 {
    side(vertex@, edge_line(polygon, i))
}

/// Edge `i` of `a` separates `a` from `b`: every vertex of `b` lies on its
/// line or beyond it. A side that is NaN counts as inside.
pub open spec fn edge_separates(a: Seq<Point>, i: int, b: Seq<Point>) -> bool {
    forall|j: int| 0 <= j < b.len() ==> at_most(#[trigger] edge_side(a, i, b[j]), ZERO)
}

/// Some edge of `a` separates `a` from `b`.
pub open spec fn has_separating_edge(a: Seq<Point>, b: Seq<Point>) -> bool {
    exists|i: int| 0 <= i < a.len() && #[trigger] edge_separates(a, i, b)
}

/// Two convex polygons overlap when no edge of either separates them.
pub open spec fn polygons_overlap(a: Seq<Point>, b: Seq<Point>) -> bool {
    !has_separating_edge(a, b) && !has_separating_edge(b, a)
}

/// Tests one edge of `a` against the vertices of `b`, and stops at the first
/// vertex found inside.
fn edge_is_separating(a: &[Point], i: usize, b: &[Point]) -> (r: bool)
    requires
        i < a.len(),
    ensures
        r == edge_separates(a@, i as int, b@),
{
    let n: usize = a.len();
    let k: usize = if i + 1 == n { 0 } else { i + 1 };
    assert(k as int == next_index(i as int, n as int)) by {
        if i + 1 == n {
            assert((i + 1) % (n as int) == 0) by (nonlinear_arith)
                requires
                    i + 1 == n,
                    n > 0,
            ;
        } else {
            assert((i + 1) % (n as int) == i + 1) by (nonlinear_arith)
                requires
                    0 <= i + 1 < n,
            ;
        }
    }
    let line = regressive_point_point(&a[i], &a[k]);
    let mut j: usize = 0;
    while j < b.len()
        invariant
            j <= b.len(),
            line@ == edge_line(a@, i as int),
            forall|m: int| 0 <= m < j ==> at_most(#[trigger] edge_side(a@, i as int, b@[m]), ZERO),
        decreases b.len() - j,
    {
        let s: u32 = regressive_point_plane(&b[j], &line);
        proof {
            lemma_value_keeps_order(s, ZERO);
        }
        if !is_at_most(s, ZERO) {
            assert(!at_most(edge_side(a@, i as int, b@[j as int]), ZERO));
            return false;
        }
        j += 1;
    }
    true
}

/// Looks for an edge of `a` that separates `a` from `b`, and stops at the
/// first one.
fn find_separating_edge(a: &[Point], b: &[Point]) -> (r: bool)
    ensures
        r == has_separating_edge(a@, b@),
{
    let mut i: usize = 0;
    while i < a.len()
        invariant
            i <= a.len(),
            forall|m: int| 0 <= m < i ==> !#[trigger] edge_separates(a@, m, b@),
        decreases a.len() - i,
    {
        if edge_is_separating(a, i, b) {
            return true;
        }
        i += 1;
    }
    false
}

/// Whether two convex polygons overlap, by the separating axis theorem.
///
/// Both polygons are given by their vertices in clockwise order, the
/// winding of [`aabb_to_convex_polygon`]; edge `i` runs from vertex `i` to
/// the next, and the last vertex is joined to the first. The edges of `a` are tried
/// against the vertices of `b`, then those of `b` against the vertices of
/// `a`: the answer is `false` as soon as one edge has every vertex of the
/// other polygon on its line or beyond it. So polygons that only touch do
/// not overlap.
///
/// The answer tells of overlap only for convex polygons with three vertices
/// or more that enclose an area. For others it is what the contract says and
/// means nothing; a polygon without vertices overlaps one without, and no
/// other.
pub fn do_convex_polygons_overlap(a: &[Point], b: &[Point]) -> (r: bool)
    ensures
        r == polygons_overlap(a@, b@),
{
    if find_separating_edge(a, b) {
        return false;
    }
    !find_separating_edge(b, a)
}

} // verus!
