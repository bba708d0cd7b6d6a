//! The rasterizer's guarantees that relate several operations: the fill
//! rule partitions shared edges, the depth test is monotone, and
//! perspective-correct interpolation is continuous across shared edges.

use vstd::prelude::*;
use crate::fx::{iabs, sat_s, tdiv_s, FP};
use crate::geom::{Fx2, Fx3, FxMat4};
use crate::model::{Material, Vertex};
use crate::shader::Shader;
use crate::pipeline::{edge_s, edge_inside_s, covered_s, interp_s, pixel_s, pixel_covered_s,
    pixel_z_s, depth_enc_s, project_s, draw_tris_s};
use vstd::arithmetic::mul::{lemma_mul_is_associative, lemma_mul_is_commutative,
    lemma_mul_is_distributive_add, lemma_mul_is_distributive_add_other_way,
    lemma_mul_is_distributive_sub, lemma_mul_is_distributive_sub_other_way,
    lemma_mul_cancels_negatives, lemma_mul_basics_1};

verus! {

/// A pixel center that lies exactly on the edge shared by two triangles is
/// never inside both: the fill rule takes the zero case on an edge
/// direction and on its reverse in opposite ways.
pub proof fn lemma_no_double_cover(sa: Fx2, sb: Fx2, sc: Fx2, sd: Fx2, px: int, py: int)
    requires
        edge_s(sa.x as int, sa.y as int, sb.x as int, sb.y as int, px, py) == 0,
    ensures
        !(covered_s(sa, sb, sc, px, py) && covered_s(sb, sa, sd, px, py)),
{
    lemma_edge_reverse(sa.x as int, sa.y as int, sb.x as int, sb.y as int, px, py);
}

/// Reversing a segment negates its edge function.
pub proof fn lemma_edge_reverse(ux: int, uy: int, vx: int, vy: int, px: int, py: int)
    ensures
        edge_s(vx, vy, ux, uy, px, py) == -edge_s(ux, uy, vx, vy, px, py),
{
    assert((ux - vx) * (py - vy) - (uy - vy) * (px - vx) == -((vx - ux) * (py - uy) - (vy - uy)
        * (px - ux))) by (nonlinear_arith);
}

/// The partition law of the top-left fill rule: a pixel center on the edge
/// shared by two triangles, passing the other two edges of each, is covered
/// by exactly one of them -- never both, never neither.
pub proof fn lemma_shared_edge_partition(sa: Fx2, sb: Fx2, sc: Fx2, sd: Fx2, px: int, py: int)
    requires
        edge_s(sa.x as int, sa.y as int, sb.x as int, sb.y as int, px, py) == 0,
        !(sa.x == sb.x && sa.y == sb.y),
        edge_inside_s(
            edge_s(sb.x as int, sb.y as int, sc.x as int, sc.y as int, px, py),
            sc.x - sb.x,
            sc.y - sb.y,
        ),
        edge_inside_s(
            edge_s(sc.x as int, sc.y as int, sa.x as int, sa.y as int, px, py),
            sa.x - sc.x,
            sa.y - sc.y,
        ),
        edge_inside_s(
            edge_s(sa.x as int, sa.y as int, sd.x as int, sd.y as int, px, py),
            sd.x - sa.x,
            sd.y - sa.y,
        ),
        edge_inside_s(
            edge_s(sd.x as int, sd.y as int, sb.x as int, sb.y as int, px, py),
            sb.x - sd.x,
            sb.y - sd.y,
        ),
    ensures
        covered_s(sa, sb, sc, px, py) != covered_s(sb, sa, sd, px, py),
{
    lemma_edge_reverse(sa.x as int, sa.y as int, sb.x as int, sb.y as int, px, py);
}

/// A nearer depth is written and an equal or farther one is rejected, so a
/// second identical pass over a pixel changes nothing: drawing a triangle
/// twice in a row equals drawing it once.
pub proof fn lemma_pixel_idempotent<S: Shader>(
    shader: S,
    mat: Material,
    model: FxMat4,
    a: (Fx3, i64),
    b: (Fx3, i64),
    c: (Fx3, i64),
    v0: Vertex,
    v1: Vertex,
    v2: Vertex,
    w: int,
    h: int,
    x: int,
    y: int,
    cold: u32,
    dold: u32,
)
    ensures
        ({
            let r1 = pixel_s(shader, mat, model, a, b, c, v0, v1, v2, w, h, x, y, cold, dold);
            let r2 = pixel_s(shader, mat, model, a, b, c, v0, v1, v2, w, h, x, y, r1.0, r1.1);
            r2 == r1
        }),
{
    reveal(pixel_s);
}

/// Clearing depth between two identical draws reproduces the first image:
/// starting from the far sentinel, a redraw over its own output writes the
/// same color and depth again, or rejects the pixel leaving it as it was.
pub proof fn lemma_pixel_redraw_after_clear<S: Shader>(
    shader: S,
    mat: Material,
    model: FxMat4,
    a: (Fx3, i64),
    b: (Fx3, i64),
    c: (Fx3, i64),
    v0: Vertex,
    v1: Vertex,
    v2: Vertex,
    w: int,
    h: int,
    x: int,
    y: int,
    cold: u32,
)
    ensures
        ({
            let r1 = pixel_s(
                shader,
                mat,
                model,
                a,
                b,
                c,
                v0,
                v1,
                v2,
                w,
                h,
                x,
                y,
                cold,
                0xffffffffu32,
            );
            let r2 = pixel_s(
                shader,
                mat,
                model,
                a,
                b,
                c,
                v0,
                v1,
                v2,
                w,
                h,
                x,
                y,
                r1.0,
                0xffffffffu32,
            );
            r2 == r1
        }),
{
    reveal(pixel_s);
}

/// The last two factors of a product commute.
proof fn lemma_swap_last(x: int, b: int, c: int)
    ensures
        (x * b) * c == (x * c) * b,
{
    lemma_mul_is_associative(x, b, c);
    lemma_mul_is_commutative(b, c);
    lemma_mul_is_associative(x, c, b);
}

/// The second and fourth factors of a left-nested product commute.
proof fn lemma_swap24(a: int, b: int, c: int, d: int)
    ensures
        a * b * c * d == a * d * c * b,
{
    lemma_swap_last(a * b, c, d);
    lemma_swap_last(a, b, d);
    lemma_swap_last(a * d, b, c);
}

/// The last factor of a left-nested product rotates to second place.
proof fn lemma_rot(a: int, b: int, c: int, d: int)
    ensures
        a * b * c * d == a * d * b * c,
{
    lemma_swap_last(a * b, c, d);
    lemma_swap_last(a, b, d);
}

/// A paired regrouping: the first factors of each pair join.
proof fn lemma_pair_regroup(a: int, b: int, c: int, d: int)
    ensures
        (a * b) * (c * d) == ((a * c) * b) * d,
{
    lemma_mul_is_associative(a * b, c, d);
    lemma_swap_last(a, b, c);
}

/// A difference of products expanded.
proof fn lemma_expand_diff(p: int, q: int, r: int, s: int)
    ensures
        (p - q) * (r - s) == (p * r - p * s) - (q * r - q * s),
{
    lemma_mul_is_distributive_sub_other_way(r - s, p, q);
    lemma_mul_is_distributive_sub(p, r, s);
    lemma_mul_is_distributive_sub(q, r, s);
}

/// A sum of products expanded.
proof fn lemma_expand_add(p: int, q: int, r: int, s: int)
    ensures
        (p + q) * (r + s) == (p * r + p * s) + (q * r + q * s),
{
    lemma_mul_is_distributive_add_other_way(r + s, p, q);
    lemma_mul_is_distributive_add(p, r, s);
    lemma_mul_is_distributive_add(q, r, s);
}

/// The three-term Grassmann-Pluecker relation of two-dimensional cross
/// products.
pub proof fn lemma_gp(ux: int, uy: int, vx: int, vy: int, wx: int, wy: int, qx: int, qy: int)
    ensures
        (ux * vy - uy * vx) * (wx * qy - wy * qx) - (ux * wy - uy * wx) * (vx * qy - vy * qx) + (
        ux * qy - uy * qx) * (vx * wy - vy * wx) == 0,
{
    lemma_expand_diff(ux * vy, uy * vx, wx * qy, wy * qx);
    lemma_mul_is_associative(ux * vy, wx, qy);
    lemma_mul_is_associative(ux * vy, wy, qx);
    lemma_mul_is_associative(uy * vx, wx, qy);
    lemma_mul_is_associative(uy * vx, wy, qx);
    lemma_expand_diff(ux * wy, uy * wx, vx * qy, vy * qx);
    lemma_mul_is_associative(ux * wy, vx, qy);
    lemma_mul_is_associative(ux * wy, vy, qx);
    lemma_mul_is_associative(uy * wx, vx, qy);
    lemma_mul_is_associative(uy * wx, vy, qx);
    lemma_expand_diff(ux * qy, uy * qx, vx * wy, vy * wx);
    lemma_mul_is_associative(ux * qy, vx, wy);
    lemma_mul_is_associative(ux * qy, vy, wx);
    lemma_mul_is_associative(uy * qx, vx, wy);
    lemma_mul_is_associative(uy * qx, vy, wx);
    lemma_swap_last(ux, vy, wy);
    lemma_swap_last(uy, vx, wx);
    lemma_swap24(ux, wy, vx, qy);
    lemma_swap24(uy, wx, vy, qx);
    lemma_rot(ux, vy, wx, qy);
    lemma_rot(uy, vx, wy, qx);
}

/// On the line through the shared edge `(a, b)`, the weights a point gets
/// from the two adjacent triangles are proportional: the products of the
/// crosswise weight pairs agree.
pub proof fn lemma_edge_proportionality(sa: Fx2, sb: Fx2, sc: Fx2, sd: Fx2, px: int, py: int)
    requires
        edge_s(sa.x as int, sa.y as int, sb.x as int, sb.y as int, px, py) == 0,
    ensures
        edge_s(sb.x as int, sb.y as int, sc.x as int, sc.y as int, px, py) * edge_s(
            sa.x as int,
            sa.y as int,
            sd.x as int,
            sd.y as int,
            px,
            py,
        ) == edge_s(sc.x as int, sc.y as int, sa.x as int, sa.y as int, px, py) * edge_s(
            sd.x as int,
            sd.y as int,
            sb.x as int,
            sb.y as int,
            px,
            py,
        ),
{
    let ax = sa.x as int;
    let ay = sa.y as int;
    let bx = sb.x as int;
    let by = sb.y as int;
    let cx = sc.x as int;
    let cy = sc.y as int;
    let dx = sd.x as int;
    let dy = sd.y as int;
    let ux = bx - ax;
    let uy = by - ay;
    let vx = cx - ax;
    let vy = cy - ay;
    let wx = dx - ax;
    let wy = dy - ay;
    let qx = px - ax;
    let qy = py - ay;
    let cuv = ux * vy - uy * vx;
    let cuw = ux * wy - uy * wx;
    let cvq = vx * qy - vy * qx;
    let cwq = wx * qy - wy * qx;
    let cuq = ux * qy - uy * qx;
    assert(edge_s(ax, ay, bx, by, px, py) == cuq);
    assert(cuq == 0);
    assert(edge_s(ax, ay, dx, dy, px, py) == cwq);
    // the edge from b to c, centered on a
    lemma_expand_diff(vx, ux, qy, uy);
    lemma_expand_diff(vy, uy, qx, ux);
    lemma_mul_is_commutative(vx, uy);
    lemma_mul_is_commutative(vy, ux);
    lemma_mul_is_commutative(ux, uy);
    assert(edge_s(bx, by, cx, cy, px, py) == (vx - ux) * (qy - uy) - (vy - uy) * (qx - ux));
    assert(edge_s(bx, by, cx, cy, px, py) == cvq + cuv - cuq);
    // the edge from c back to a
    lemma_expand_diff(0, vx, qy, vy);
    lemma_expand_diff(0, vy, qx, vx);
    lemma_mul_is_commutative(vx, vy);
    assert(edge_s(cx, cy, ax, ay, px, py) == (0 - vx) * (qy - vy) - (0 - vy) * (qx - vx));
    assert(edge_s(cx, cy, ax, ay, px, py) == -cvq);
    // the edge from d to b, centered on a
    lemma_expand_diff(ux, wx, qy, wy);
    lemma_expand_diff(uy, wy, qx, wx);
    lemma_mul_is_commutative(ux, wy);
    lemma_mul_is_commutative(uy, wx);
    lemma_mul_is_commutative(wx, wy);
    assert(edge_s(dx, dy, bx, by, px, py) == (ux - wx) * (qy - wy) - (uy - wy) * (qx - wx));
    assert(edge_s(dx, dy, bx, by, px, py) == cuq - cuw - cwq);
    lemma_gp(ux, uy, vx, vy, wx, wy, qx, qy);
    assert(cuq * (vx * wy - vy * wx) == 0) by {
        lemma_mul_is_distributive_sub(cuq, vx * wy, vy * wx);
        lemma_mul_basics_1(vx * wy);
        lemma_mul_basics_1(vy * wx);
    }
    assert(cuv * cwq == cuw * cvq);
    // both sides of the goal expand over the centered cross products
    lemma_mul_is_distributive_add_other_way(cwq, cvq, cuv);
    lemma_mul_cancels_negatives(cvq, cuw + cwq);
    lemma_mul_is_distributive_add(cvq, cuw, cwq);
    lemma_mul_is_commutative(cuw, cvq);
    assert((cvq + cuv) * cwq == cvq * cwq + cuv * cwq);
    assert((-cvq) * (-(cuw + cwq)) == cvq * cuw + cvq * cwq);
    assert((cvq + cuv - cuq) * cwq == (-cvq) * (cuq - cuw - cwq));
}

/// Division rounded toward zero depends only on the rational value: two
/// fractions with equal cross products have the same truncation.
pub proof fn lemma_tdiv_equal(n1: int, d1: int, n2: int, d2: int)
    requires
        d1 != 0,
        d2 != 0,
        n1 * d2 == n2 * d1,
    ensures
        tdiv_s(n1, d1) == tdiv_s(n2, d2),
{
    let a1 = iabs(n1);
    let b1 = iabs(d1);
    let a2 = iabs(n2);
    let b2 = iabs(d2);
    assert(a1 * b2 == n1 * d2 || a1 * b2 == -(n1 * d2)) by (nonlinear_arith)
        requires
            a1 == n1 || a1 == -n1,
            b2 == d2 || b2 == -d2,
    ;
    assert(a2 * b1 == n2 * d1 || a2 * b1 == -(n2 * d1)) by (nonlinear_arith)
        requires
            a2 == n2 || a2 == -n2,
            b1 == d1 || b1 == -d1,
    ;
    assert(a1 * b2 >= 0) by (nonlinear_arith)
        requires
            a1 >= 0,
            b2 >= 0,
    ;
    assert(a2 * b1 >= 0) by (nonlinear_arith)
        requires
            a2 >= 0,
            b1 >= 0,
    ;
    assert(a1 * b2 == a2 * b1);
    let q = a1 / b1;
    assert(q * b1 <= a1 && a1 < (q + 1) * b1 && q >= 0) by (nonlinear_arith)
        requires
            b1 > 0,
            a1 >= 0,
            q == a1 / b1,
    ;
    assert(q * b2 <= a2 && a2 < (q + 1) * b2) by (nonlinear_arith)
        requires
            b1 > 0,
            b2 > 0,
            q * b1 <= a1,
            a1 < (q + 1) * b1,
            a1 * b2 == a2 * b1,
    ;
    assert(a2 / b2 == q) by (nonlinear_arith)
        requires
            b2 > 0,
            q >= 0,
            q * b2 <= a2,
            a2 < (q + 1) * b2,
    ;
    if q == 0 {
        assert(tdiv_s(n1, d1) == 0 && tdiv_s(n2, d2) == 0);
    } else {
        assert(a1 > 0 && a2 > 0) by (nonlinear_arith)
            requires
                q >= 1,
                b1 > 0,
                b2 > 0,
                q * b1 <= a1,
                q * b2 <= a2,
        ;
        assert(((n1 < 0) == (d1 < 0)) == ((n2 < 0) == (d2 < 0))) by (nonlinear_arith)
            requires
                n1 * d2 == n2 * d1,
                n1 != 0,
                n2 != 0,
                d1 != 0,
                d2 != 0,
        ;
    }
}

/// Perspective-correct interpolation is continuous across a shared edge:
/// at a point on the edge common to two triangles, the attribute
/// interpolated within either triangle is identical -- whatever the two
/// opposite vertices carry -- because the two weighted fractions are equal
/// as rationals.
pub proof fn lemma_shared_edge_interp(
    sa: Fx2,
    sb: Fx2,
    sc: Fx2,
    sd: Fx2,
    px: int,
    py: int,
    ua: int,
    ub: int,
    uc: int,
    ud: int,
    ra: i64,
    rb: i64,
    rc: i64,
    rd: i64,
    d1: int,
    d2: int,
)
    requires
        edge_s(sa.x as int, sa.y as int, sb.x as int, sb.y as int, px, py) == 0,
        d1 == edge_s(sb.x as int, sb.y as int, sc.x as int, sc.y as int, px, py) * ra + edge_s(
            sc.x as int,
            sc.y as int,
            sa.x as int,
            sa.y as int,
            px,
            py,
        ) * rb + edge_s(sa.x as int, sa.y as int, sb.x as int, sb.y as int, px, py) * rc,
        d2 == edge_s(sa.x as int, sa.y as int, sd.x as int, sd.y as int, px, py) * rb + edge_s(
            sd.x as int,
            sd.y as int,
            sb.x as int,
            sb.y as int,
            px,
            py,
        ) * ra + edge_s(sb.x as int, sb.y as int, sa.x as int, sa.y as int, px, py) * rd,
        d1 != 0,
        d2 != 0,
    ensures
        interp_s(
            edge_s(sb.x as int, sb.y as int, sc.x as int, sc.y as int, px, py),
            edge_s(sc.x as int, sc.y as int, sa.x as int, sa.y as int, px, py),
            edge_s(sa.x as int, sa.y as int, sb.x as int, sb.y as int, px, py),
            ua,
            ub,
            uc,
            d1,
        ) == interp_s(
            edge_s(sa.x as int, sa.y as int, sd.x as int, sd.y as int, px, py),
            edge_s(sd.x as int, sd.y as int, sb.x as int, sb.y as int, px, py),
            edge_s(sb.x as int, sb.y as int, sa.x as int, sa.y as int, px, py),
            ub,
            ua,
            ud,
            d2,
        ),
{
    let w0 = edge_s(sb.x as int, sb.y as int, sc.x as int, sc.y as int, px, py);
    let w1 = edge_s(sc.x as int, sc.y as int, sa.x as int, sa.y as int, px, py);
    let w0p = edge_s(sa.x as int, sa.y as int, sd.x as int, sd.y as int, px, py);
    let w1p = edge_s(sd.x as int, sd.y as int, sb.x as int, sb.y as int, px, py);
    lemma_edge_reverse(sa.x as int, sa.y as int, sb.x as int, sb.y as int, px, py);
    lemma_edge_proportionality(sa, sb, sc, sd, px, py);
    let s1 = w0 * ua + w1 * ub;
    let s2 = w0p * ub + w1p * ua;
    let t1 = w0 * ra + w1 * rb;
    let t2 = w0p * rb + w1p * ra;
    let e_ab = edge_s(sa.x as int, sa.y as int, sb.x as int, sb.y as int, px, py);
    let e_ba = edge_s(sb.x as int, sb.y as int, sa.x as int, sa.y as int, px, py);
    assert(e_ab == 0 && e_ba == 0);
    lemma_mul_basics_1(rc as int);
    lemma_mul_basics_1(rd as int);
    lemma_mul_basics_1(uc);
    lemma_mul_basics_1(ud);
    assert(d1 == t1 && d2 == t2);
    lemma_expand_add(w0 * ua, w1 * ub, w0p * (rb as int), w1p * (ra as int));
    lemma_expand_add(w0p * ub, w1p * ua, w0 * (ra as int), w1 * (rb as int));
    lemma_pair_regroup(w0, ua, w0p, rb as int);
    lemma_pair_regroup(w0, ua, w1p, ra as int);
    lemma_pair_regroup(w1, ub, w0p, rb as int);
    lemma_pair_regroup(w1, ub, w1p, ra as int);
    lemma_pair_regroup(w0p, ub, w0, ra as int);
    lemma_pair_regroup(w0p, ub, w1, rb as int);
    lemma_pair_regroup(w1p, ua, w0, ra as int);
    lemma_pair_regroup(w1p, ua, w1, rb as int);
    lemma_mul_is_commutative(w1p, w1);
    lemma_mul_is_commutative(w0p, w0);
    lemma_mul_is_commutative(w0p, w1);
    lemma_mul_is_commutative(w1p, w0);
    assert(s1 * t2 == s2 * t1);
    let n1 = (FP as int) * s1;
    let n2 = (FP as int) * s2;
    lemma_mul_is_associative(FP as int, s1, t2);
    lemma_mul_is_associative(FP as int, s2, t1);
    lemma_mul_is_commutative(s1, t2);
    lemma_mul_is_commutative(s2, t1);
    assert(n1 * d2 == n2 * d1);
    lemma_tdiv_equal(n1, d1, n2, d2);
    assert(interp_s(w0, w1, e_ab, ua, ub, uc, d1) == sat_s(tdiv_s(n1, d1)));
    assert(interp_s(w0p, w1p, e_ba, ub, ua, ud, d2) == sat_s(tdiv_s(n2, d2)));
}

/// The cell at pixel `(x, y)` after triangles `j` to `k` of a list, drawn
/// in order: the per-pixel view of a whole draw, each triangle projected
/// through `mvp` and applied by `pixel_s`.
pub open spec fn pixel_run_s<S: Shader>(
    shader: S,
    mat: Material,
    mvp: FxMat4,
    model: FxMat4,
    tris: Seq<(Vertex, Vertex, Vertex)>,
    j: nat,
    k: nat,
    w: int,
    h: int,
    x: int,
    y: int,
    c: u32,
    d: u32,
) -> (u32, u32)
    decreases k - j,
{
    if j >= k {
        (c, d)
    } else {
        let t = tris[j as int];
        let pa = project_s(t.0.position, mvp);
        let pb = project_s(t.1.position, mvp);
        let pc = project_s(t.2.position, mvp);
        let r = pixel_s(shader, mat, model, pa, pb, pc, t.0, t.1, t.2, w, h, x, y, c, d);
        pixel_run_s(shader, mat, mvp, model, tris, (j + 1) as nat, k, w, h, x, y, r.0, r.1)
    }
}

/// Peeling the last triangle off a per-pixel run.
proof fn lemma_run_snoc<S: Shader>(
    shader: S,
    mat: Material,
    mvp: FxMat4,
    model: FxMat4,
    tris: Seq<(Vertex, Vertex, Vertex)>,
    j: nat,
    k: nat,
    w: int,
    h: int,
    x: int,
    y: int,
    c: u32,
    d: u32,
)
    requires
        j <= k,
    ensures
        ({
            let r = pixel_run_s(shader, mat, mvp, model, tris, j, k, w, h, x, y, c, d);
            let t = tris[k as int];
            let pa = project_s(t.0.position, mvp);
            let pb = project_s(t.1.position, mvp);
            let pc = project_s(t.2.position, mvp);
            pixel_run_s(shader, mat, mvp, model, tris, j, (k + 1) as nat, w, h, x, y, c, d)
                == pixel_s(shader, mat, model, pa, pb, pc, t.0, t.1, t.2, w, h, x, y, r.0, r.1)
        }),
    decreases k - j,
{
    reveal_with_fuel(pixel_run_s, 3);
    if j < k {
        let t = tris[j as int];
        let pa = project_s(t.0.position, mvp);
        let pb = project_s(t.1.position, mvp);
        let pc = project_s(t.2.position, mvp);
        let r = pixel_s(shader, mat, model, pa, pb, pc, t.0, t.1, t.2, w, h, x, y, c, d);
        lemma_run_snoc(shader, mat, mvp, model, tris, (j + 1) as nat, k, w, h, x, y, r.0, r.1);
    }
}

/// One triangle never raises the stored depth.
proof fn lemma_pixel_step_depth<S: Shader>(
    shader: S,
    mat: Material,
    model: FxMat4,
    a: (Fx3, i64),
    b: (Fx3, i64),
    c: (Fx3, i64),
    v0: Vertex,
    v1: Vertex,
    v2: Vertex,
    w: int,
    h: int,
    x: int,
    y: int,
    cold: u32,
    dold: u32,
)
    ensures
        pixel_s(shader, mat, model, a, b, c, v0, v1, v2, w, h, x, y, cold, dold).1 <= dold,
{
    reveal(pixel_s);
}

/// A whole per-pixel run never raises the stored depth.
proof fn lemma_run_depth<S: Shader>(
    shader: S,
    mat: Material,
    mvp: FxMat4,
    model: FxMat4,
    tris: Seq<(Vertex, Vertex, Vertex)>,
    j: nat,
    k: nat,
    w: int,
    h: int,
    x: int,
    y: int,
    c: u32,
    d: u32,
)
    ensures
        pixel_run_s(shader, mat, mvp, model, tris, j, k, w, h, x, y, c, d).1 <= d,
    decreases k - j,
{
    if j < k {
        let t = tris[j as int];
        let pa = project_s(t.0.position, mvp);
        let pb = project_s(t.1.position, mvp);
        let pc = project_s(t.2.position, mvp);
        let r = pixel_s(shader, mat, model, pa, pb, pc, t.0, t.1, t.2, w, h, x, y, c, d);
        lemma_pixel_step_depth(shader, mat, model, pa, pb, pc, t.0, t.1, t.2, w, h, x, y, c, d);
        lemma_run_depth(shader, mat, mvp, model, tris, (j + 1) as nat, k, w, h, x, y, r.0, r.1);
    }
}

/// Replaying a whole triangle list over its own output changes nothing:
/// the per-pixel form of a repeated draw without an intervening depth
/// clear.  A triangle that would pass the depth test again writes the very
/// cell values already present; every other triangle is rejected.
pub proof fn lemma_run_idempotent<S: Shader>(
    shader: S,
    mat: Material,
    mvp: FxMat4,
    model: FxMat4,
    tris: Seq<(Vertex, Vertex, Vertex)>,
    j: nat,
    k: nat,
    w: int,
    h: int,
    x: int,
    y: int,
    c: u32,
    d: u32,
)
    ensures
        ({
            let r = pixel_run_s(shader, mat, mvp, model, tris, j, k, w, h, x, y, c, d);
            pixel_run_s(shader, mat, mvp, model, tris, j, k, w, h, x, y, r.0, r.1) == r
        }),
    decreases k - j,
{
    if j < k {
        let t = tris[j as int];
        let pa = project_s(t.0.position, mvp);
        let pb = project_s(t.1.position, mvp);
        let pc = project_s(t.2.position, mvp);
        let first = pixel_s(shader, mat, model, pa, pb, pc, t.0, t.1, t.2, w, h, x, y, c, d);
        let r = pixel_run_s(
            shader,
            mat,
            mvp,
            model,
            tris,
            (j + 1) as nat,
            k,
            w,
            h,
            x,
            y,
            first.0,
            first.1,
        );
        lemma_pixel_step_depth(shader, mat, model, pa, pb, pc, t.0, t.1, t.2, w, h, x, y, c, d);
        lemma_run_depth(
            shader,
            mat,
            mvp,
            model,
            tris,
            (j + 1) as nat,
            k,
            w,
            h,
            x,
            y,
            first.0,
            first.1,
        );
        let z = pixel_z_s(pa, pb, pc, w, h, x, y);
        if pixel_covered_s(pa, pb, pc, w, h, x, y) && z < r.1 {
            // the depth can only have dropped this far if this triangle
            // itself wrote a negative depth, stored as zero: it rewrites
            // the same color and the same zero depth
            reveal(pixel_s);
            assert(z < d);
            assert(first.1 == depth_enc_s(z));
            assert(z < 0);
            assert(first.1 == 0 && r.1 == 0);
            assert(pixel_s(
                shader,
                mat,
                model,
                pa,
                pb,
                pc,
                t.0,
                t.1,
                t.2,
                w,
                h,
                x,
                y,
                r.0,
                r.1,
            ) == first);
        } else {
            assert(pixel_s(
                shader,
                mat,
                model,
                pa,
                pb,
                pc,
                t.0,
                t.1,
                t.2,
                w,
                h,
                x,
                y,
                r.0,
                r.1,
            ) == (r.0, r.1)) by {
                reveal(pixel_s);
            }
            lemma_run_idempotent(
                shader,
                mat,
                mvp,
                model,
                tris,
                (j + 1) as nat,
                k,
                w,
                h,
                x,
                y,
                first.0,
                first.1,
            );
        }
    }
}

/// Replaying a whole triangle list over its own colors, with the depth
/// reset to what it was before the first pass, reproduces both buffers
/// exactly: the per-pixel form of a redraw after `clear_depth`.
pub proof fn lemma_run_redraw_after_reset<S: Shader>(
    shader: S,
    mat: Material,
    mvp: FxMat4,
    model: FxMat4,
    tris: Seq<(Vertex, Vertex, Vertex)>,
    j: nat,
    k: nat,
    w: int,
    h: int,
    x: int,
    y: int,
    c: u32,
    d: u32,
)
    ensures
        ({
            let r = pixel_run_s(shader, mat, mvp, model, tris, j, k, w, h, x, y, c, d);
            pixel_run_s(shader, mat, mvp, model, tris, j, k, w, h, x, y, r.0, d) == r
        }),
    decreases k - j,
{
    if j < k {
        let t = tris[j as int];
        let pa = project_s(t.0.position, mvp);
        let pb = project_s(t.1.position, mvp);
        let pc = project_s(t.2.position, mvp);
        let first = pixel_s(shader, mat, model, pa, pb, pc, t.0, t.1, t.2, w, h, x, y, c, d);
        let r = pixel_run_s(
            shader,
            mat,
            mvp,
            model,
            tris,
            (j + 1) as nat,
            k,
            w,
            h,
            x,
            y,
            first.0,
            first.1,
        );
        let z = pixel_z_s(pa, pb, pc, w, h, x, y);
        if pixel_covered_s(pa, pb, pc, w, h, x, y) && z < d {
            // same prior depth, same decision: the first triangle writes
            // the same cell as in the first pass, and the rest is literal
            assert(pixel_s(
                shader,
                mat,
                model,
                pa,
                pb,
                pc,
                t.0,
                t.1,
                t.2,
                w,
                h,
                x,
                y,
                r.0,
                d,
            ) == first) by {
                reveal(pixel_s);
            }
        } else {
            assert(first == (c, d) && pixel_s(
                shader,
                mat,
                model,
                pa,
                pb,
                pc,
                t.0,
                t.1,
                t.2,
                w,
                h,
                x,
                y,
                r.0,
                d,
            ) == (r.0, d)) by {
                reveal(pixel_s);
            }
            lemma_run_redraw_after_reset(
                shader,
                mat,
                mvp,
                model,
                tris,
                (j + 1) as nat,
                k,
                w,
                h,
                x,
                y,
                c,
                d,
            );
        }
    }
}

/// A whole draw keeps both buffer lengths.
proof fn lemma_draw_len<S: Shader>(
    shader: S,
    mat: Material,
    mvp: FxMat4,
    model: FxMat4,
    tris: Seq<(Vertex, Vertex, Vertex)>,
    k: nat,
    w: int,
    h: int,
    fb: Seq<u32>,
    db: Seq<u32>,
)
    ensures
        ({
            let r = draw_tris_s(shader, mat, mvp, model, tris, k, w, h, fb, db);
            r.0.len() == fb.len() && r.1.len() == db.len()
        }),
    decreases k,
{
    if k > 0 {
        lemma_draw_len(shader, mat, mvp, model, tris, (k - 1) as nat, w, h, fb, db);
    }
}

/// A whole draw, read at one pixel: the cell of the folded buffers is the
/// per-pixel run of the same list over the cell's prior values.
proof fn lemma_draw_pointwise<S: Shader>(
    shader: S,
    mat: Material,
    mvp: FxMat4,
    model: FxMat4,
    tris: Seq<(Vertex, Vertex, Vertex)>,
    k: nat,
    w: int,
    h: int,
    fb: Seq<u32>,
    db: Seq<u32>,
    x: int,
    y: int,
)
    requires
        fb.len() == w * h,
        db.len() == w * h,
        0 <= x < w,
        0 <= y < h,
    ensures
        ({
            let r = draw_tris_s(shader, mat, mvp, model, tris, k, w, h, fb, db);
            let p = pixel_run_s(
                shader,
                mat,
                mvp,
                model,
                tris,
                0,
                k,
                w,
                h,
                x,
                y,
                fb[y * w + x],
                db[y * w + x],
            );
            r.0[y * w + x] == p.0 && r.1[y * w + x] == p.1
        }),
    decreases k,
{
    let i = y * w + x;
    assert(0 <= i && i < w * h) by (nonlinear_arith)
        requires
            0 <= x < w,
            0 <= y < h,
            i == y * w + x,
    ;
    if k > 0 {
        lemma_draw_pointwise(shader, mat, mvp, model, tris, (k - 1) as nat, w, h, fb, db, x, y);
        lemma_draw_len(shader, mat, mvp, model, tris, (k - 1) as nat, w, h, fb, db);
        let prev = draw_tris_s(shader, mat, mvp, model, tris, (k - 1) as nat, w, h, fb, db);
        assert(i % w == x && i / w == y) by (nonlinear_arith)
            requires
                0 <= x < w,
                0 <= y,
                i == y * w + x,
        ;
        lemma_run_snoc(
            shader,
            mat,
            mvp,
            model,
            tris,
            0,
            (k - 1) as nat,
            w,
            h,
            x,
            y,
            fb[i],
            db[i],
        );
    }
}

/// Drawing a whole triangle list a second time, without an intervening
/// depth clear, changes neither buffer: a repeated draw is rejected by the
/// depth test cell by cell, or rewrites the very values already present.
pub proof fn lemma_draw_list_idempotent<S: Shader>(
    shader: S,
    mat: Material,
    mvp: FxMat4,
    model: FxMat4,
    tris: Seq<(Vertex, Vertex, Vertex)>,
    k: nat,
    w: int,
    h: int,
    fb: Seq<u32>,
    db: Seq<u32>,
)
    requires
        fb.len() == w * h,
        db.len() == w * h,
        0 <= w,
        0 <= h,
    ensures
        ({
            let r = draw_tris_s(shader, mat, mvp, model, tris, k, w, h, fb, db);
            draw_tris_s(shader, mat, mvp, model, tris, k, w, h, r.0, r.1) == r
        }),
{
    let r = draw_tris_s(shader, mat, mvp, model, tris, k, w, h, fb, db);
    let r2 = draw_tris_s(shader, mat, mvp, model, tris, k, w, h, r.0, r.1);
    lemma_draw_len(shader, mat, mvp, model, tris, k, w, h, fb, db);
    lemma_draw_len(shader, mat, mvp, model, tris, k, w, h, r.0, r.1);
    assert forall|i: int| 0 <= i < w * h implies r2.0[i] == r.0[i] && r2.1[i] == r.1[i] by {
        assert(w > 0 && h > 0) by (nonlinear_arith)
            requires
                w * h > 0,
                w >= 0,
                h >= 0,
        ;
        let x = i % w;
        let y = i / w;
        assert(i == w * y + x && 0 <= x < w && 0 <= y) by (nonlinear_arith)
            requires
                w > 0,
                i >= 0,
                x == i % w,
                y == i / w,
        ;
        assert(y < h) by (nonlinear_arith)
            requires
                w > 0,
                h > 0,
                i < w * h,
                i == w * y + x,
                0 <= x < w,
                0 <= y,
        ;
        assert(y * w + x == i) by (nonlinear_arith)
            requires
                i == w * y + x,
        ;
        lemma_draw_pointwise(shader, mat, mvp, model, tris, k, w, h, fb, db, x, y);
        lemma_draw_pointwise(shader, mat, mvp, model, tris, k, w, h, r.0, r.1, x, y);
        lemma_run_idempotent(shader, mat, mvp, model, tris, 0, k, w, h, x, y, fb[i], db[i]);
    }
    assert(r2.0 =~= r.0);
    assert(r2.1 =~= r.1);
}

/// Drawing a whole triangle list, resetting the depth buffer to what it
/// held before the draw, and drawing the list again reproduces both
/// buffers of the single draw exactly.  With the depth buffer cleared to
/// the far sentinel before each pass, this is the redraw-after-clear rule:
/// the intervening clear makes the second draw recompute and rewrite the
/// same cells with the same values.
pub proof fn lemma_draw_list_redraw_after_reset<S: Shader>(
    shader: S,
    mat: Material,
    mvp: FxMat4,
    model: FxMat4,
    tris: Seq<(Vertex, Vertex, Vertex)>,
    k: nat,
    w: int,
    h: int,
    fb: Seq<u32>,
    db: Seq<u32>,
)
    requires
        fb.len() == w * h,
        db.len() == w * h,
        0 <= w,
        0 <= h,
    ensures
        ({
            let r = draw_tris_s(shader, mat, mvp, model, tris, k, w, h, fb, db);
            draw_tris_s(shader, mat, mvp, model, tris, k, w, h, r.0, db) == r
        }),
{
    let r = draw_tris_s(shader, mat, mvp, model, tris, k, w, h, fb, db);
    let r2 = draw_tris_s(shader, mat, mvp, model, tris, k, w, h, r.0, db);
    lemma_draw_len(shader, mat, mvp, model, tris, k, w, h, fb, db);
    lemma_draw_len(shader, mat, mvp, model, tris, k, w, h, r.0, db);
    assert forall|i: int| 0 <= i < w * h implies r2.0[i] == r.0[i] && r2.1[i] == r.1[i] by {
        assert(w > 0 && h > 0) by (nonlinear_arith)
            requires
                w * h > 0,
                w >= 0,
                h >= 0,
        ;
        let x = i % w;
        let y = i / w;
        assert(i == w * y + x && 0 <= x < w && 0 <= y) by (nonlinear_arith)
            requires
                w > 0,
                i >= 0,
                x == i % w,
                y == i / w,
        ;
        assert(y < h) by (nonlinear_arith)
            requires
                w > 0,
                h > 0,
                i < w * h,
                i == w * y + x,
                0 <= x < w,
                0 <= y,
        ;
        assert(y * w + x == i) by (nonlinear_arith)
            requires
                i == w * y + x,
        ;
        lemma_draw_pointwise(shader, mat, mvp, model, tris, k, w, h, fb, db, x, y);
        lemma_draw_pointwise(shader, mat, mvp, model, tris, k, w, h, r.0, db, x, y);
        lemma_run_redraw_after_reset(shader, mat, mvp, model, tris, 0, k, w, h, x, y, fb[i], db[i]);
    }
    assert(r2.0 =~= r.0);
    assert(r2.1 =~= r.1);
}

} // verus!
