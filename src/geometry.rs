//! Axis-aligned boxes and their overlap ratio (intersection over union).

use vstd::prelude::*;

verus! {

/// Largest coordinate magnitude, in millionths, for which an overlap is computed.
pub const COORD_LIMIT: i128 = 1_000_000_000_000_000;

/// One million: the overlap ratio is given in millionths.
pub const MICRO: i128 = 1_000_000;

/// An axis-aligned box from corner `(x1, y1)` to corner `(x2, y2)`, in millionths.
#[derive(Clone, Copy, Debug, PartialEq, Eq, Structural)]
pub struct Rect {
    pub x1: i128,
    pub y1: i128,
    pub x2: i128,
    pub y2: i128,
}

pub open spec fn max_int(a: int, b: int) -> int {
    if a >= b { a } else { b }
}

pub open spec fn min_int(a: int, b: int) -> int {
    if a <= b { a } else { b }
}

pub open spec fn coord_ok(c: i128) -> bool {
    -COORD_LIMIT <= c <= COORD_LIMIT
}

impl Rect {
    pub open spec fn in_range(self) -> bool {
        coord_ok(self.x1) && coord_ok(self.y1) && coord_ok(self.x2) && coord_ok(self.y2)
    }

    /// Signed area: negative where a corner pair is given the wrong way round.
    pub open spec fn area(self) -> int {
        (self.x2 - self.x1) * (self.y2 - self.y1)
    }
}

/// Width of the overlap along one axis, never negative.
pub open spec fn overlap_extent(a1: int, a2: int, b1: int, b2: int) -> int {
    max_int(0, min_int(a2, b2) - max_int(a1, b1))
}

pub open spec fn intersection_area(a: Rect, b: Rect) -> int {
    overlap_extent(a.x1 as int, a.x2 as int, b.x1 as int, b.x2 as int) * overlap_extent(
        a.y1 as int,
        a.y2 as int,
        b.y1 as int,
        b.y2 as int,
    )
}

pub open spec fn union_area(a: Rect, b: Rect) -> int {
    a.area() + b.area() - intersection_area(a, b)
}

/// Division rounding toward zero.
pub open spec fn div_toward_zero(n: int, d: int) -> int {
    if d > 0 {
        if n >= 0 { n / d } else { -((-n) / d) }
    } else if d < 0 {
        if n >= 0 { -(n / (-d)) } else { (-n) / (-d) }
    } else {
        0
    }
}

/// Intersection over union in millionths, rounded toward zero. A zero union
/// gives zero, and so does a box with a coordinate beyond the limit.
pub open spec fn overlap_ratio(a: Rect, b: Rect) -> int {
    if !a.in_range() || !b.in_range() || union_area(a, b) == 0 {
        0
    } else {
        div_toward_zero(intersection_area(a, b) * MICRO, union_area(a, b))
    }
}

fn max_i128(a: i128, b: i128) -> (r: i128)
    ensures
        r == max_int(a as int, b as int),
{
    if a >= b { a } else { b }
}

fn min_i128(a: i128, b: i128) -> (r: i128)
    ensures
        r == min_int(a as int, b as int),
{
    if a <= b { a } else { b }
}

fn extent(a1: i128, a2: i128, b1: i128, b2: i128) -> (r: i128)
    requires
        coord_ok(a1),
        coord_ok(a2),
        coord_ok(b1),
        coord_ok(b2),
    ensures
        r == overlap_extent(a1 as int, a2 as int, b1 as int, b2 as int),
        0 <= r <= 2 * COORD_LIMIT,
{
    let d = min_i128(a2, b2) - max_i128(a1, b1);
    max_i128(0, d)
}

fn in_range_exec(a: &Rect) -> (r: bool)
    ensures
        r == a.in_range(),
{
    -COORD_LIMIT <= a.x1 && a.x1 <= COORD_LIMIT && -COORD_LIMIT <= a.y1 && a.y1 <= COORD_LIMIT
        && -COORD_LIMIT <= a.x2 && a.x2 <= COORD_LIMIT && -COORD_LIMIT <= a.y2 && a.y2
        <= COORD_LIMIT
}

/// Intersection and union areas of two boxes within the coordinate limit.
fn areas(a: &Rect, b: &Rect) -> (r: (i128, i128))
    requires
        a.in_range(),
        b.in_range(),
    ensures
        r.0 == intersection_area(*a, *b),
        r.1 == union_area(*a, *b),
        0 <= r.0 <= 4_000_000_000_000_000_000_000_000_000_000,
        -12_000_000_000_000_000_000_000_000_000_000 <= r.1 <= 8_000_000_000_000_000_000_000_000_000_000,
{
    let ex = extent(a.x1, a.x2, b.x1, b.x2);
    let ey = extent(a.y1, a.y2, b.y1, b.y2);
    let l: i128 = 2 * COORD_LIMIT;
    assert(l == 2_000_000_000_000_000);
    assert(l * l == 4_000_000_000_000_000_000_000_000_000_000);
    assert(0 <= ex * ey <= l * l) by (nonlinear_arith)
        requires
            0 <= ex <= l,
            0 <= ey <= l,
    ;
    let inter = ex * ey;
    let wa = a.x2 - a.x1;
    let ha = a.y2 - a.y1;
    let wb = b.x2 - b.x1;
    let hb = b.y2 - b.y1;
    assert(-(l * l) <= wa * ha <= l * l) by (nonlinear_arith)
        requires
            -l <= wa <= l,
            -l <= ha <= l,
    ;
    assert(-(l * l) <= wb * hb <= l * l) by (nonlinear_arith)
        requires
            -l <= wb <= l,
            -l <= hb <= l,
    ;
    let area_a = wa * ha;
    let area_b = wb * hb;
    (inter, area_a + area_b - inter)
}

/// Overlap ratio of two boxes in millionths: `1_000_000` for identical boxes
/// of non-zero area, `0` for boxes that do not overlap.
pub fn overlap_micros(a: &Rect, b: &Rect) -> (r: i128)
    ensures
        r == overlap_ratio(*a, *b),
{
    if !in_range_exec(a) || !in_range_exec(b) {
        return 0;
    }
    let (inter, un) = areas(a, b);
    if un == 0 {
        return 0;
    }
    let n = inter * MICRO;
    if un > 0 {
        n / un
    } else {
        -(n / (-un))
    }
}

/// The overlap ratio is above `threshold` millionths, compared exactly:
/// `intersection / union > threshold / 1_000_000`. Where the ratio is taken as
/// zero (a zero union, or a coordinate beyond the limit), zero is compared.
pub open spec fn overlap_exceeds(a: Rect, b: Rect, threshold: int) -> bool {
    if !a.in_range() || !b.in_range() || union_area(a, b) == 0 {
        0 > threshold
    } else if union_area(a, b) > 0 {
        intersection_area(a, b) * MICRO > threshold * union_area(a, b)
    } else {
        intersection_area(a, b) * MICRO < threshold * union_area(a, b)
    }
}

/// Whether the overlap ratio of two boxes is above `threshold` millionths.
pub fn overlap_above(a: &Rect, b: &Rect, threshold: i128) -> (r: bool)
    ensures
        r == overlap_exceeds(*a, *b, threshold as int),
{
    if !in_range_exec(a) || !in_range_exec(b) {
        return 0 > threshold;
    }
    let (inter, un) = areas(a, b);
    if un == 0 {
        return 0 > threshold;
    }
    let n = inter * MICRO;
    match threshold.checked_mul(un) {
        Some(m) => if un > 0 {
            n > m
        } else {
            n < m
        },
        None => {
            proof {
                let t = threshold as int;
                let u = un as int;
                assert(t * u > i128::MAX || t * u < i128::MIN);
                if t == 0 {
                    assert(t * u == 0) by (nonlinear_arith)
                        requires
                            t == 0,
                    ;
                }
                if t > 0 && u > 0 {
                    assert(t * u > 0) by (nonlinear_arith)
                        requires
                            t > 0,
                            u > 0,
                    ;
                } else if t < 0 && u < 0 {
                    assert(t * u > 0) by (nonlinear_arith)
                        requires
                            t < 0,
                            u < 0,
                    ;
                } else if t > 0 && u < 0 {
                    assert(t * u < 0) by (nonlinear_arith)
                        requires
                            t > 0,
                            u < 0,
                    ;
                } else {
                    assert(t * u < 0) by (nonlinear_arith)
                        requires
                            t < 0,
                            u > 0,
                    ;
                }
            }
            threshold < 0
        },
    }
}

/// A box with positive width and height overlaps itself completely.
pub proof fn lemma_overlap_identical(a: Rect)
    requires
        a.in_range(),
        a.x1 < a.x2,
        a.y1 < a.y2,
    ensures
        overlap_ratio(a, a) == MICRO,
{
    let w = a.x2 - a.x1;
    let h = a.y2 - a.y1;
    assert(intersection_area(a, a) == w * h);
    assert(w * h > 0) by (nonlinear_arith)
        requires
            w > 0,
            h > 0,
    ;
    assert(union_area(a, a) == w * h);
    assert((w * h) * MICRO / (w * h) == MICRO) by (nonlinear_arith)
        requires
            w * h > 0,
    ;
}

/// Boxes that share no area along one axis have overlap zero.
pub proof fn lemma_overlap_disjoint(a: Rect, b: Rect)
    requires
        overlap_extent(a.x1 as int, a.x2 as int, b.x1 as int, b.x2 as int) == 0 || overlap_extent(
            a.y1 as int,
            a.y2 as int,
            b.y1 as int,
            b.y2 as int,
        ) == 0,
    ensures
        overlap_ratio(a, b) == 0,
{
    assert(intersection_area(a, b) == 0);
}

} // verus!
