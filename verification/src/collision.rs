//! Exact circle intersection tests.
//!
//! The segment test parameterizes the segment from `A` to `B` as
//! `A + t * (B - A)` and asks whether the quadratic
//! `f(t) = |A + t * (B - A) - C|^2 - r^2` has a root with `t` in `[0, 1]`:
//! whether the segment touches or crosses the circle of radius `r` around
//! `C`.  Over the integers that is stated without radicals: some point of
//! the segment lies in the closed disc (a rational parameter `n / d` with
//! `d^2 * f(n / d) <= 0`) while at least one endpoint lies on or outside
//! the circle.  A segment buried strictly inside the disc crosses no
//! boundary and does not count as intersecting.

use vstd::prelude::*;

verus! {

/// Squared distance between points `(ax, ay)` and `(bx, by)`.
pub open spec fn dist2(ax: int, ay: int, bx: int, by: int) -> int {
    (ax - bx) * (ax - bx) + (ay - by) * (ay - by)
}

/// Leading coefficient of `f`: the squared length of the segment.
pub open spec fn seg_qa(ax: int, ay: int, bx: int, by: int) -> int {
    (bx - ax) * (bx - ax) + (by - ay) * (by - ay)
}

/// Linear coefficient of `f`: twice the projection of `A - C` on `B - A`.
pub open spec fn seg_qb(cx: int, cy: int, ax: int, ay: int, bx: int, by: int) -> int {
    2 * ((ax - cx) * (bx - ax) + (ay - cy) * (by - ay))
}

/// Constant coefficient of `f`: the squared distance of `A` from the
/// center, less the squared radius.
pub open spec fn seg_qc(cx: int, cy: int, r: int, ax: int, ay: int) -> int {
    dist2(ax, ay, cx, cy) - r * r
}

/// The segment point at rational parameter `n / d` (with `0 <= n <= d`,
/// `0 < d`) lies in the closed disc: `d^2 * f(n / d) <= 0`, cleared of
/// denominators.
pub open spec fn disc_witness(
    cx: int, cy: int, r: int, ax: int, ay: int, bx: int, by: int, n: int, d: int,
) -> bool {
    let qa = seg_qa(ax, ay, bx, by);
    let qb = seg_qb(cx, cy, ax, ay, bx, by);
    let qc = seg_qc(cx, cy, r, ax, ay);
    0 < d && 0 <= n <= d && qa * n * n + qb * n * d + qc * d * d <= 0
}

/// Some point of the segment lies in the closed disc.
pub open spec fn segment_meets_disc(
    cx: int, cy: int, r: int, ax: int, ay: int, bx: int, by: int,
) -> bool {
    exists|n: int, d: int| disc_witness(cx, cy, r, ax, ay, bx, by, n, d)
}

/// The segment from `A` to `B` touches or crosses the circle of radius `r`
/// around `C`: it meets the closed disc, and at least one endpoint lies on
/// or outside the circle.
pub open spec fn circle_segment_hit(
    cx: int, cy: int, r: int, ax: int, ay: int, bx: int, by: int,
) -> bool {
    &&& segment_meets_disc(cx, cy, r, ax, ay, bx, by)
    &&& (dist2(ax, ay, cx, cy) >= r * r || dist2(bx, by, cx, cy) >= r * r)
}

/// The point lies in the closed disc of radius `r` around `C`.
pub open spec fn circle_point_hit(cx: int, cy: int, r: int, px: int, py: int) -> bool {
    dist2(px, py, cx, cy) <= r * r
}

/// A product of two factors bounded by `m` in magnitude is bounded by
/// `m * m`.
proof fn lemma_product_bound(x: int, y: int, m: int) by (nonlinear_arith)
    requires
        0 <= m,
        -m <= x <= m,
        -m <= y <= m,
    ensures
        -(m * m) <= x * y <= m * m,
{
}

/// A nondegenerate segment has a positive leading coefficient.
proof fn lemma_qa_pos(ax: int, ay: int, bx: int, by: int) by (nonlinear_arith)
    requires
        ax != bx || ay != by,
    ensures
        seg_qa(ax, ay, bx, by) > 0,
{
}

/// With a negative discriminant the quadratic is positive everywhere, so no
/// cleared-denominator value can be nonpositive.
#[verifier::rlimit(100)]
proof fn lemma_no_witness_negative_disc(qa: int, qb: int, qc: int, n: int, d: int)
    by (nonlinear_arith)
    requires
        qa > 0,
        qb * qb - 4 * qa * qc < 0,
        d > 0,
    ensures
        qa * n * n + qb * n * d + qc * d * d > 0,
{
}

/// With all coefficients pointing away from the unit interval (vertex at or
/// left of 0, positive value at 0) the quadratic is positive on `[0, 1]`.
proof fn lemma_no_witness_rising(qa: int, qb: int, qc: int, n: int, d: int) by (nonlinear_arith)
    requires
        qa >= 0,
        qb >= 0,
        qc > 0,
        0 <= n,
        d > 0,
    ensures
        qa * n * n + qb * n * d + qc * d * d > 0,
{
}

/// Reversing the segment reverses the parameter: the quadratic for `B` to
/// `A` at `m = d - n` takes the value of the one for `A` to `B` at `n`.
proof fn lemma_swap_coefficients(
    cx: int, cy: int, r: int, ax: int, ay: int, bx: int, by: int,
) by (nonlinear_arith)
    ensures
        seg_qa(bx, by, ax, ay) == seg_qa(ax, ay, bx, by),
        seg_qb(cx, cy, bx, by, ax, ay)
            == -2 * seg_qa(ax, ay, bx, by) - seg_qb(cx, cy, ax, ay, bx, by),
        seg_qc(cx, cy, r, bx, by)
            == seg_qa(ax, ay, bx, by) + seg_qb(cx, cy, ax, ay, bx, by)
                + seg_qc(cx, cy, r, ax, ay),
{
}

/// Substituting `m = d - n` turns the quadratic of a segment into the
/// quadratic of the reversed segment.
proof fn lemma_reverse_value(qa: int, qb: int, qc: int, n: int, d: int, m: int)
    by (nonlinear_arith)
    requires
        m == d - n,
    ensures
        qa * n * n + qb * n * d + qc * d * d
            == qa * m * m + (-2 * qa - qb) * m * d + (qa + qb + qc) * d * d,
{
}

/// If a segment meets the closed disc, so does the reversed segment.
proof fn lemma_meets_disc_swap(cx: int, cy: int, r: int, ax: int, ay: int, bx: int, by: int)
    requires
        segment_meets_disc(cx, cy, r, ax, ay, bx, by),
    ensures
        segment_meets_disc(cx, cy, r, bx, by, ax, ay),
{
    let (n, d) = choose|n: int, d: int| disc_witness(cx, cy, r, ax, ay, bx, by, n, d);
    let qa = seg_qa(ax, ay, bx, by);
    let qb = seg_qb(cx, cy, ax, ay, bx, by);
    let qc = seg_qc(cx, cy, r, ax, ay);
    lemma_swap_coefficients(cx, cy, r, ax, ay, bx, by);
    lemma_reverse_value(qa, qb, qc, n, d, d - n);
    assert(disc_witness(cx, cy, r, bx, by, ax, ay, d - n, d));
}

/// Whether the segment from `A` to `B` touches or crosses the circle is
/// indifferent to the order of the endpoints.
pub proof fn lemma_segment_hit_symmetric(
    cx: int, cy: int, r: int, ax: int, ay: int, bx: int, by: int,
)
    requires
        (ax, ay) != (bx, by),
    ensures
        circle_segment_hit(cx, cy, r, ax, ay, bx, by)
            == circle_segment_hit(cx, cy, r, bx, by, ax, ay),
{
    lemma_swap_coefficients(cx, cy, r, ax, ay, bx, by);
    lemma_swap_coefficients(cx, cy, r, bx, by, ax, ay);
    assert(dist2(ax, ay, cx, cy) == seg_qc(cx, cy, r, ax, ay) + r * r);
    assert(dist2(bx, by, cx, cy) == seg_qc(cx, cy, r, bx, by) + r * r);
    if segment_meets_disc(cx, cy, r, ax, ay, bx, by) {
        lemma_meets_disc_swap(cx, cy, r, ax, ay, bx, by);
    }
    if segment_meets_disc(cx, cy, r, bx, by, ax, ay) {
        lemma_meets_disc_swap(cx, cy, r, bx, by, ax, ay);
    }
}

/// A point exactly on the circle is hit (the boundary is inclusive).
pub proof fn lemma_point_on_circle_hits(cx: int, cy: int, r: int, px: int, py: int)
    requires
        dist2(px, py, cx, cy) == r * r,
    ensures
        circle_point_hit(cx, cy, r, px, py),
{
}

/// A point strictly farther than the radius is not hit.
pub proof fn lemma_point_outside_misses(cx: int, cy: int, r: int, px: int, py: int)
    requires
        dist2(px, py, cx, cy) > r * r,
    ensures
        !circle_point_hit(cx, cy, r, px, py),
{
}

/// Does the segment from `p` to `q` touch or cross the circle of radius
/// `r` centered at `z`?  The endpoints must be distinct; callers guard the
/// degenerate segment away (or use the checked variant).
pub fn check_segment_collision(z: (i64, i64), p: (i64, i64), q: (i64, i64), r: i64) -> (hit:
    bool)
    requires
        p != q,
        -0x10000000 <= z.0 <= 0x10000000,
        -0x10000000 <= z.1 <= 0x10000000,
        -0x10000000 <= p.0 <= 0x10000000,
        -0x10000000 <= p.1 <= 0x10000000,
        -0x10000000 <= q.0 <= 0x10000000,
        -0x10000000 <= q.1 <= 0x10000000,
        0 <= r <= 0x10000000,
    ensures
        hit == circle_segment_hit(
            z.0 as int, z.1 as int, r as int,
            p.0 as int, p.1 as int, q.0 as int, q.1 as int,
        ),
{
    let cx = z.0 as i128;
    let cy = z.1 as i128;
    let ax = p.0 as i128;
    let ay = p.1 as i128;
    let bx = q.0 as i128;
    let by = q.1 as i128;
    let rr = r as i128;

    let dx = bx - ax;
    let dy = by - ay;
    let ex = ax - cx;
    let ey = ay - cy;
    proof {
        lemma_product_bound(dx as int, dx as int, 0x20000000);
        lemma_product_bound(dy as int, dy as int, 0x20000000);
        lemma_product_bound(ex as int, ex as int, 0x20000000);
        lemma_product_bound(ey as int, ey as int, 0x20000000);
        lemma_product_bound(ex as int, dx as int, 0x20000000);
        lemma_product_bound(ey as int, dy as int, 0x20000000);
        lemma_product_bound(rr as int, rr as int, 0x20000000);
    }
    let qa = dx * dx + dy * dy;
    let qb = 2 * (ex * dx + ey * dy);
    let qc = ex * ex + ey * ey - rr * rr;
    let f1 = qa + qb + qc;

    let ghost sqa = seg_qa(p.0 as int, p.1 as int, q.0 as int, q.1 as int);
    let ghost sqb = seg_qb(z.0 as int, z.1 as int, p.0 as int, p.1 as int, q.0 as int, q.1 as int);
    let ghost sqc = seg_qc(z.0 as int, z.1 as int, r as int, p.0 as int, p.1 as int);
    proof {
        assert(qa == sqa && qb == sqb && qc == sqc);
        lemma_qa_pos(p.0 as int, p.1 as int, q.0 as int, q.1 as int);
    }

    let meets: bool = if qc <= 0 || f1 <= 0 {
        true
    } else {
        proof {
            assert(-0x2000000000000000 <= qa <= 0x2000000000000000);
            assert(-0x2000000000000000 <= qb <= 0x2000000000000000);
            assert(-0x2000000000000000 <= qc <= 0x2000000000000000);
            lemma_product_bound(qb as int, qb as int, 0x2000000000000000);
            lemma_product_bound(qa as int, qc as int, 0x2000000000000000);
        }
        let disc = qb * qb - 4 * (qa * qc);
        proof {
            assert(4 * (sqa * sqc) == 4 * sqa * sqc) by (nonlinear_arith);
        }
        disc >= 0 && qb <= 0 && -qb <= 2 * qa
    };
    let outside = qc >= 0 || f1 >= 0;

    proof {
        let czx = z.0 as int;
        let czy = z.1 as int;
        let crr = r as int;
        let pax = p.0 as int;
        let pay = p.1 as int;
        let qbx = q.0 as int;
        let qby = q.1 as int;
        if meets {
            if qc <= 0 {
                assert(disc_witness(czx, czy, crr, pax, pay, qbx, qby, 0, 1))
                    by (nonlinear_arith)
                    requires seg_qc(czx, czy, crr, pax, pay) <= 0;
            } else if f1 <= 0 {
                assert(disc_witness(czx, czy, crr, pax, pay, qbx, qby, 1, 1))
                    by (nonlinear_arith)
                    requires
                        seg_qa(pax, pay, qbx, qby)
                            + seg_qb(czx, czy, pax, pay, qbx, qby)
                            + seg_qc(czx, czy, crr, pax, pay) <= 0;
            } else {
                assert(sqa * (-sqb) * (-sqb) + sqb * (-sqb) * (2 * sqa)
                    + sqc * (2 * sqa) * (2 * sqa)
                    == -sqa * (sqb * sqb - 4 * sqa * sqc)) by (nonlinear_arith);
                assert(-sqa * (sqb * sqb - 4 * sqa * sqc) <= 0) by (nonlinear_arith)
                    requires sqa > 0, sqb * sqb - 4 * sqa * sqc >= 0;
                assert(disc_witness(czx, czy, crr, pax, pay, qbx, qby, -sqb, 2 * sqa));
            }
            assert(segment_meets_disc(czx, czy, crr, pax, pay, qbx, qby));
        } else {
            // qc > 0, f1 > 0, and the vertex condition failed: no point of
            // the segment reaches the disc.
            assert forall|n: int, d: int|
                !disc_witness(czx, czy, crr, pax, pay, qbx, qby, n, d) by {
                if 0 < d && 0 <= n <= d {
                    if sqb * sqb - 4 * sqa * sqc < 0 {
                        lemma_no_witness_negative_disc(sqa, sqb, sqc, n, d);
                    } else if sqb > 0 {
                        lemma_no_witness_rising(sqa, sqb, sqc, n, d);
                    } else {
                        // -qb > 2 qa: the vertex lies right of 1; reverse
                        // the segment and the quadratic rises from f1 > 0.
                        lemma_reverse_value(sqa, sqb, sqc, n, d, d - n);
                        lemma_no_witness_rising(sqa, -2 * sqa - sqb, sqa + sqb + sqc, d - n, d);
                    }
                }
            }
        }
        assert(dist2(pax, pay, czx, czy) - crr * crr == sqc);
        assert(dist2(qbx, qby, czx, czy) - crr * crr == sqa + sqb + sqc) by {
            lemma_swap_coefficients(czx, czy, crr, pax, pay, qbx, qby);
        }
    }
    meets && outside
}

/// Total variant of the segment test: `None` for the degenerate segment
/// whose endpoints coincide, which the primary test requires away.
pub fn check_segment_collision_checked(
    z: (i64, i64), p: (i64, i64), q: (i64, i64), r: i64,
) -> (hit: Option<bool>)
    requires
        -0x10000000 <= z.0 <= 0x10000000,
        -0x10000000 <= z.1 <= 0x10000000,
        -0x10000000 <= p.0 <= 0x10000000,
        -0x10000000 <= p.1 <= 0x10000000,
        -0x10000000 <= q.0 <= 0x10000000,
        -0x10000000 <= q.1 <= 0x10000000,
        0 <= r <= 0x10000000,
    ensures
        p == q <==> hit is None,
        p != q ==> hit == Some(
            circle_segment_hit(
                z.0 as int, z.1 as int, r as int,
                p.0 as int, p.1 as int, q.0 as int, q.1 as int,
            ),
        ),
{
    if p.0 == q.0 && p.1 == q.1 {
        None
    } else {
        Some(check_segment_collision(z, p, q, r))
    }
}

/// Does the point `p` lie within (or on) the circle of radius `r` at `z`?
pub fn check_point_collision(z: (i64, i64), p: (i64, i64), r: i64) -> (hit: bool)
    requires
        -0x10000000 <= z.0 <= 0x10000000,
        -0x10000000 <= z.1 <= 0x10000000,
        -0x10000000 <= p.0 <= 0x10000000,
        -0x10000000 <= p.1 <= 0x10000000,
        0 <= r <= 0x10000000,
    ensures
        hit == circle_point_hit(z.0 as int, z.1 as int, r as int, p.0 as int, p.1 as int),
{
    let dx = (p.0 as i128) - (z.0 as i128);
    let dy = (p.1 as i128) - (z.1 as i128);
    let rr = r as i128;
    proof {
        lemma_product_bound(dx as int, dx as int, 0x20000000);
        lemma_product_bound(dy as int, dy as int, 0x20000000);
        lemma_product_bound(rr as int, rr as int, 0x20000000);
    }
    dx * dx + dy * dy <= rr * rr
}

} // verus!
