//! The rasterization pipeline: projection, scan conversion under the
//! top-left fill rule, depth testing, perspective-correct interpolation and
//! per-pixel shading into a caller-owned color buffer.
//!
//! Every pixel of a draw is pinned by `pixel_s`: the color and depth cell of
//! a pixel after a triangle is a pure function of the triangle's data and of
//! the cell's prior contents, and a whole draw call folds that function over
//! the triangle list.

use vstd::prelude::*;
use crate::fx::{fx_ok, fx_add_s, fx_sub_s, fx_mul_s, fx_div_s, sat_s, tdiv_s, clamp_s, iabs,
    to255_s, FP, FP_HALF, FX_LIM, fx_mul, fx_div, tdiv128, sat128, to255};
use crate::geom::{Fx2, Fx3, Fx4, FxMat4, fx2_ok, fx3_ok, fx4_ok, mat_ok};
use crate::framebuffer::{FrameBuffer, MAX_DIM};
use crate::model::{Material, Vertex};
use crate::shader::{Shader, ShaderIn};

verus! {

/// Screen-space coordinates are clamped into `[-SCREEN_LIM, SCREEN_LIM]`
/// (two to the thirtieth), which covers every point of the largest render
/// target and keeps every edge-function product exact.
pub const SCREEN_LIM: i64 = 1073741824;

/// A packed opaque color: red in bits 16 to 23, green in 8 to 15, blue in
/// 0 to 7.
pub open spec fn pack_rgb_s(r: int, g: int, b: int) -> u32 {
    (r * 65536 + g * 256 + b) as u32
}

pub fn from_u8_rgb(r: u8, g: u8, b: u8) -> (c: u32)
    ensures
        c == pack_rgb_s(r as int, g as int, b as int),
{
    let (rr, gg, bb): (u32, u32, u32) = (r as u32, g as u32, b as u32);
    let c = (rr << 16) | (gg << 8) | bb;
    proof {
        assert((rr << 16) | (gg << 8) | bb == rr * 65536 + gg * 256 + bb) by (bit_vector)
            requires
                rr < 256,
                gg < 256,
                bb < 256,
        ;
    }
    c
}

/// A fixed-point color packed to bytes by the 255.99 rule.
pub open spec fn from_vec3_rgb_s(rgb: Fx3) -> u32 {
    pack_rgb_s(to255_s(rgb.x as int), to255_s(rgb.y as int), to255_s(rgb.z as int))
}

pub fn from_vec3_rgb(rgb: &Fx3) -> (c: u32)
    requires
        fx3_ok(*rgb),
    ensures
        c == from_vec3_rgb_s(*rgb),
{
    from_u8_rgb(to255(rgb.x), to255(rgb.y), to255(rgb.z))
}

/// The edge function: the signed parallelogram area of the segment from `u`
/// to `v` against the point `p`.  Positive when `p` lies to the left of the
/// directed segment.
pub open spec fn edge_s(ux: int, uy: int, vx: int, vy: int, px: int, py: int) -> int {
    (vx - ux) * (py - uy) - (vy - uy) * (px - ux)
}

/// The exact edge function over screen-space points.
pub fn edge_function(a: &Fx2, c: &Fx2, b: &Fx2) -> (e: i128)
    requires
        iabs(a.x as int) <= 2 * SCREEN_LIM,
        iabs(a.y as int) <= 2 * SCREEN_LIM,
        iabs(c.x as int) <= 2 * SCREEN_LIM,
        iabs(c.y as int) <= 2 * SCREEN_LIM,
        iabs(b.x as int) <= 2 * SCREEN_LIM,
        iabs(b.y as int) <= 2 * SCREEN_LIM,
    ensures
        e == edge_s(a.x as int, a.y as int, c.x as int, c.y as int, b.x as int, b.y as int),
        iabs(e as int) <= 0x100000000000000000int,
{
    proof {
        assert(iabs((c.x - a.x) * (b.y - a.y)) <= 0x40000000000000000int && iabs(
            (c.y - a.y) * (b.x - a.x),
        ) <= 0x40000000000000000int) by (nonlinear_arith)
            requires
                iabs(a.x as int) <= 2 * 1073741824,
                iabs(a.y as int) <= 2 * 1073741824,
                iabs(c.x as int) <= 2 * 1073741824,
                iabs(c.y as int) <= 2 * 1073741824,
                iabs(b.x as int) <= 2 * 1073741824,
                iabs(b.y as int) <= 2 * 1073741824,
        ;
    }
    ((c.x as i128) - (a.x as i128)) * ((b.y as i128) - (a.y as i128)) - ((c.y as i128) - (
    a.y as i128)) * ((b.x as i128) - (a.x as i128))
}

/// The top-left fill rule for one edge with value `e` and direction
/// `(dx, dy)`: strictly positive values are inside; a value of zero is
/// inside exactly when the edge points up, or lies flat pointing right.
/// Applied independently to each edge, the rule assigns a pixel centered on
/// a shared edge to exactly one of the two triangles.
pub open spec fn edge_inside_s(e: int, dx: int, dy: int) -> bool {
    if e == 0 {
        (dy == 0 && dx > 0) || dy > 0
    } else {
        e > 0
    }
}

/// Coverage of the pixel-center point `p` by the screen-space triangle
/// `(sa, sb, sc)`: all three edges must pass the fill rule.
///
/// Each edge's zero case is paired, deliberately, with that same edge's own
/// direction vector -- including the third edge, whose tie-break uses the
/// direction from `sa` to `sb`, not a neighbor's.  Pairing a zero edge
/// value with another edge's direction would break the partition of pixels
/// centered on a shared edge (see the partition law in `laws`).
pub open spec fn covered_s(sa: Fx2, sb: Fx2, sc: Fx2, px: int, py: int) -> bool {
    let a0 = edge_s(sb.x as int, sb.y as int, sc.x as int, sc.y as int, px, py);
    let a1 = edge_s(sc.x as int, sc.y as int, sa.x as int, sa.y as int, px, py);
    let a2 = edge_s(sa.x as int, sa.y as int, sb.x as int, sb.y as int, px, py);
    &&& edge_inside_s(a0, sc.x - sb.x, sc.y - sb.y)
    &&& edge_inside_s(a1, sa.x - sc.x, sa.y - sc.y)
    &&& edge_inside_s(a2, sb.x - sa.x, sb.y - sa.y)
}

/// One axis of the screen mapping `(ndc * -0.5 + 0.5) * size`: the negative
/// scale flips the axis; the result is clamped into screen range.
pub open spec fn clip_to_screen_s(c: int, size: int) -> int {
    clamp_s(tdiv_s((FP - c) * size, 2), -(SCREEN_LIM as int), SCREEN_LIM as int)
}

pub fn clip_to_screen_space(clip_space: Fx2, screen_size: (usize, usize)) -> (r: Fx2)
    requires
        fx2_ok(clip_space),
        screen_size.0 <= MAX_DIM,
        screen_size.1 <= MAX_DIM,
    ensures
        r.x == clip_to_screen_s(clip_space.x as int, screen_size.0 as int),
        r.y == clip_to_screen_s(clip_space.y as int, screen_size.1 as int),
        iabs(r.x as int) <= SCREEN_LIM,
        iabs(r.y as int) <= SCREEN_LIM,
{
    Fx2 {
        x: clip_axis(clip_space.x, screen_size.0),
        y: clip_axis(clip_space.y, screen_size.1),
    }
}

fn clip_axis(c: i64, size: usize) -> (r: i64)
    requires
        fx_ok(c as int),
        size <= MAX_DIM,
    ensures
        r == clip_to_screen_s(c as int, size as int),
        iabs(r as int) <= SCREEN_LIM,
{
    proof {
        assert(iabs((FP - c) * size) <= 0x100000000000000int) by (nonlinear_arith)
            requires
                iabs(c as int) <= 1099511627776,
                0 <= size <= 16384,
        ;
    }
    let num: i128 = ((FP as i128) - (c as i128)) * (size as i128);
    let q: i128 = tdiv128(num, 2);
    if q < -(SCREEN_LIM as i128) {
        -SCREEN_LIM
    } else if q > SCREEN_LIM as i128 {
        SCREEN_LIM
    } else {
        q as i64
    }
}

/// A depth value stored into a cell: clamped into the 32-bit range, so a
/// negative depth stores as zero and a huge one as the far sentinel.
pub open spec fn depth_enc_s(z: int) -> u32 {
    clamp_s(z, 0, 0xffffffff) as u32
}

/// Projection of a model-space position through the combined matrix:
/// the clip-space position, the perspective divide by the reciprocal of
/// `w`, and that reciprocal.  A `w` of exactly zero yields a zero
/// reciprocal: the degenerate vertex stays finite and deterministic.
pub open spec fn project_s(p: Fx3, mvp: FxMat4) -> (Fx3, i64) {
    let clip = mvp.mul_vec4_s(Fx4 { x: p.x, y: p.y, z: p.z, w: FP });
    let rec = fx_div_s(FP as int, clip.w as int) as i64;
    (
        Fx3 {
            x: fx_mul_s(clip.x as int, rec as int) as i64,
            y: fx_mul_s(clip.y as int, rec as int) as i64,
            z: fx_mul_s(clip.z as int, rec as int) as i64,
        },
        rec,
    )
}

pub fn project(p: &Fx3, mvp: &FxMat4) -> (r: (Fx3, i64))
    requires
        fx3_ok(*p),
        mat_ok(*mvp),
    ensures
        r == project_s(*p, *mvp),
        fx3_ok(r.0),
        fx_ok(r.1 as int),
{
    let clip = mvp.mul_vec4(Fx4 { x: p.x, y: p.y, z: p.z, w: FP });
    let rec = fx_div(FP, clip.w);
    (Fx3 { x: fx_mul(clip.x, rec), y: fx_mul(clip.y, rec), z: fx_mul(clip.z, rec) }, rec)
}

/// Perspective-correct interpolation of one attribute: the weighted sum of
/// the reciprocal-scaled endpoint values over the weighted sum of the
/// reciprocals, saturated.  A zero denominator yields zero.
pub open spec fn interp_s(w0: int, w1: int, w2: int, u0: int, u1: int, u2: int, d: int) -> int {
    if d == 0 {
        0
    } else {
        sat_s(tdiv_s((FP as int) * (w0 * u0 + w1 * u1 + w2 * u2), d))
    }
}

fn interp3(w0: i128, w1: i128, w2: i128, u0: i64, u1: i64, u2: i64, d: i128) -> (r: i64)
    requires
        iabs(w0 as int) <= 0x100000000000000000int,
        iabs(w1 as int) <= 0x100000000000000000int,
        iabs(w2 as int) <= 0x100000000000000000int,
        fx_ok(u0 as int),
        fx_ok(u1 as int),
        fx_ok(u2 as int),
        iabs(d as int) <= 0x4000000000000000000000000000int,
    ensures
        r == interp_s(w0 as int, w1 as int, w2 as int, u0 as int, u1 as int, u2 as int, d as int),
        fx_ok(r as int),
{
    if d == 0 {
        0
    } else {
        proof {
            assert(iabs(w0 * u0) <= 0x1000000000000000000000000000int && iabs(w1 * u1)
                <= 0x1000000000000000000000000000int && iabs(w2 * u2)
                <= 0x1000000000000000000000000000int) by (nonlinear_arith)
                requires
                    iabs(w0 as int) <= 0x100000000000000000int,
                    iabs(w1 as int) <= 0x100000000000000000int,
                    iabs(w2 as int) <= 0x100000000000000000int,
                    iabs(u0 as int) <= 1099511627776,
                    iabs(u1 as int) <= 1099511627776,
                    iabs(u2 as int) <= 1099511627776,
            ;
            assert(iabs(w0 * u0 + w1 * u1 + w2 * u2) <= 0x3000000000000000000000000000int);
        }
        let num: i128 = (FP as i128) * (w0 * (u0 as i128) + w1 * (u1 as i128) + w2 * (
        u2 as i128));
        let q = tdiv128(num, d);
        sat128(q)
    }
}

/// The interpolated shading inputs of a covered pixel with edge weights
/// `(w0, w1, w2)`: each attribute endpoint -- the model-transformed vertex
/// position, the normal, the texture coordinates -- is scaled by its
/// vertex's reciprocal, summed with the weights, and divided by the
/// interpolated reciprocal.  The position is transformed first and scaled
/// after, so the model translation is weighted like every other attribute.
pub open spec fn shader_in_s(
    model: FxMat4,
    v0: Vertex,
    v1: Vertex,
    v2: Vertex,
    rec0: i64,
    rec1: i64,
    rec2: i64,
    w0: int,
    w1: int,
    w2: int,
) -> ShaderIn {
    let d = w0 * rec0 + w1 * rec1 + w2 * rec2;
    let mv0 = model.mul_vec4_s(
        Fx4 { x: v0.position.x, y: v0.position.y, z: v0.position.z, w: FP },
    ).xyz_s().scale_s(rec0);
    let mv1 = model.mul_vec4_s(
        Fx4 { x: v1.position.x, y: v1.position.y, z: v1.position.z, w: FP },
    ).xyz_s().scale_s(rec1);
    let mv2 = model.mul_vec4_s(
        Fx4 { x: v2.position.x, y: v2.position.y, z: v2.position.z, w: FP },
    ).xyz_s().scale_s(rec2);
    ShaderIn {
        position: Fx3 {
            x: interp_s(w0, w1, w2, mv0.x as int, mv1.x as int, mv2.x as int, d) as i64,
            y: interp_s(w0, w1, w2, mv0.y as int, mv1.y as int, mv2.y as int, d) as i64,
            z: interp_s(w0, w1, w2, mv0.z as int, mv1.z as int, mv2.z as int, d) as i64,
        },
        normal: Fx3 {
            x: interp_s(
                w0,
                w1,
                w2,
                fx_mul_s(v0.normal.x as int, rec0 as int),
                fx_mul_s(v1.normal.x as int, rec1 as int),
                fx_mul_s(v2.normal.x as int, rec2 as int),
                d,
            ) as i64,
            y: interp_s(
                w0,
                w1,
                w2,
                fx_mul_s(v0.normal.y as int, rec0 as int),
                fx_mul_s(v1.normal.y as int, rec1 as int),
                fx_mul_s(v2.normal.y as int, rec2 as int),
                d,
            ) as i64,
            z: interp_s(
                w0,
                w1,
                w2,
                fx_mul_s(v0.normal.z as int, rec0 as int),
                fx_mul_s(v1.normal.z as int, rec1 as int),
                fx_mul_s(v2.normal.z as int, rec2 as int),
                d,
            ) as i64,
        },
        tex_coord: Fx2 {
            x: interp_s(
                w0,
                w1,
                w2,
                fx_mul_s(v0.tex_coord.x as int, rec0 as int),
                fx_mul_s(v1.tex_coord.x as int, rec1 as int),
                fx_mul_s(v2.tex_coord.x as int, rec2 as int),
                d,
            ) as i64,
            y: interp_s(
                w0,
                w1,
                w2,
                fx_mul_s(v0.tex_coord.y as int, rec0 as int),
                fx_mul_s(v1.tex_coord.y as int, rec1 as int),
                fx_mul_s(v2.tex_coord.y as int, rec2 as int),
                d,
            ) as i64,
        },
    }
}

/// The fixed-point center of pixel column or row `i`.
pub open spec fn pixel_center_s(i: int) -> int {
    i * FP + FP_HALF
}

/// The screen-space point of a projected vertex on a `w` by `h` target.
pub open spec fn screen_pt_s(v: Fx3, w: int, h: int) -> Fx2 {
    Fx2 { x: clip_to_screen_s(v.x as int, w) as i64, y: clip_to_screen_s(v.y as int, h) as i64 }
}

/// Whether a triangle claims pixel `(x, y)`: positive screen area and the
/// fill rule covering the pixel center.
pub open spec fn pixel_covered_s(
    a: (Fx3, i64),
    b: (Fx3, i64),
    c: (Fx3, i64),
    w: int,
    h: int,
    x: int,
    y: int,
) -> bool {
    let sa = screen_pt_s(a.0, w, h);
    let sb = screen_pt_s(b.0, w, h);
    let sc = screen_pt_s(c.0, w, h);
    let area = edge_s(sa.x as int, sa.y as int, sb.x as int, sb.y as int, sc.x as int, sc.y as int);
    covered_s(sa, sb, sc, pixel_center_s(x), pixel_center_s(y)) && area > 0
}

/// The interpolated depth of a triangle at pixel `(x, y)`: the plain
/// weighted mean of the vertex depths, not perspective-corrected.
pub open spec fn pixel_z_s(
    a: (Fx3, i64),
    b: (Fx3, i64),
    c: (Fx3, i64),
    w: int,
    h: int,
    x: int,
    y: int,
) -> int {
    let sa = screen_pt_s(a.0, w, h);
    let sb = screen_pt_s(b.0, w, h);
    let sc = screen_pt_s(c.0, w, h);
    let px = pixel_center_s(x);
    let py = pixel_center_s(y);
    let area = edge_s(sa.x as int, sa.y as int, sb.x as int, sb.y as int, sc.x as int, sc.y as int);
    let a0 = edge_s(sb.x as int, sb.y as int, sc.x as int, sc.y as int, px, py);
    let a1 = edge_s(sc.x as int, sc.y as int, sa.x as int, sa.y as int, px, py);
    let a2 = edge_s(sa.x as int, sa.y as int, sb.x as int, sb.y as int, px, py);
    tdiv_s(a0 * a.0.z + a1 * b.0.z + a2 * c.0.z, area)
}

/// The packed color a triangle shades at pixel `(x, y)`: a function of the
/// triangle data alone, never of the buffers.
pub open spec fn pixel_color_s<S: Shader>(
    shader: S,
    mat: Material,
    model: FxMat4,
    a: (Fx3, i64),
    b: (Fx3, i64),
    c: (Fx3, i64),
    v0: Vertex,
    v1: Vertex,
    v2: Vertex,
    w: int,
    h: int,
    x: int,
    y: int,
) -> u32 {
    let sa = screen_pt_s(a.0, w, h);
    let sb = screen_pt_s(b.0, w, h);
    let sc = screen_pt_s(c.0, w, h);
    let px = pixel_center_s(x);
    let py = pixel_center_s(y);
    let a0 = edge_s(sb.x as int, sb.y as int, sc.x as int, sc.y as int, px, py);
    let a1 = edge_s(sc.x as int, sc.y as int, sa.x as int, sa.y as int, px, py);
    let a2 = edge_s(sa.x as int, sa.y as int, sb.x as int, sb.y as int, px, py);
    let sin = shader_in_s(model, v0, v1, v2, a.1, b.1, c.1, a0, a1, a2);
    let col = shader.shade_s(&mat, &sin);
    from_vec3_rgb_s(Fx3 { x: col.x, y: col.y, z: col.z })
}

/// The color and depth cell of pixel `(x, y)` after one triangle, as a pure
/// function of the triangle data and the prior cell values.  A pixel is
/// written only when the triangle has positive screen area, the fill rule
/// covers the pixel center, and the interpolated depth is strictly nearer
/// than the stored depth; the depth is written back and the shaded color is
/// packed by the 255.99 rule.
#[verifier::opaque]
pub open spec fn pixel_s<S: Shader>(
    shader: S,
    mat: Material,
    model: FxMat4,
    a: (Fx3, i64),
    b: (Fx3, i64),
    c: (Fx3, i64),
    v0: Vertex,
    v1: Vertex,
    v2: Vertex,
    w: int,
    h: int,
    x: int,
    y: int,
    cold: u32,
    dold: u32,
) -> (u32, u32) {
    if pixel_covered_s(a, b, c, w, h, x, y) && pixel_z_s(a, b, c, w, h, x, y) < dold {
        (
            pixel_color_s(shader, mat, model, a, b, c, v0, v1, v2, w, h, x, y),
            depth_enc_s(pixel_z_s(a, b, c, w, h, x, y)),
        )
    } else {
        (cold, dold)
    }
}

pub open spec fn min3_s(a: int, b: int, c: int) -> int {
    if a <= b && a <= c {
        a
    } else if b <= c {
        b
    } else {
        c
    }
}

pub open spec fn max3_s(a: int, b: int, c: int) -> int {
    if a >= b && a >= c {
        a
    } else if b >= c {
        b
    } else {
        c
    }
}

/// The first pixel column or row of a bounding box edge at fixed-point
/// coordinate `m`: truncated to a pixel index with saturation at zero.
pub open spec fn bbox_lo_s(m: int) -> int {
    if m <= 0 {
        0
    } else {
        m / (FP as int)
    }
}

/// The last pixel column or row of a bounding box edge: the coordinate
/// capped at the target extent, truncated, and capped at the last pixel.
pub open spec fn bbox_hi_s(m: int, size: int) -> int {
    let v = if m <= size * FP {
        m
    } else {
        size * FP
    };
    let p = if v <= 0 {
        0
    } else {
        v / (FP as int)
    };
    if p <= size - 1 {
        p
    } else {
        size - 1
    }
}

/// The three edge values of a point against the three sides, and the area,
/// written over coordinates centered on the first vertex.
pub proof fn lemma_edges_centered(ax: int, ay: int, bx: int, by: int, cx: int, cy: int, px: int, py: int)
    ensures
        edge_s(bx, by, cx, cy, px, py) == ((cx - ax) - (bx - ax)) * ((py - ay) - (by - ay)) - ((
        cy - ay) - (by - ay)) * ((px - ax) - (bx - ax)),
        edge_s(cx, cy, ax, ay, px, py) == (cy - ay) * (px - ax) - (cx - ax) * (py - ay),
        edge_s(ax, ay, bx, by, px, py) == (bx - ax) * (py - ay) - (by - ay) * (px - ax),
        edge_s(ax, ay, bx, by, cx, cy) == (bx - ax) * (cy - ay) - (by - ay) * (cx - ax),
{
    assert(edge_s(bx, by, cx, cy, px, py) == ((cx - ax) - (bx - ax)) * ((py - ay) - (by - ay))
        - ((cy - ay) - (by - ay)) * ((px - ax) - (bx - ax))) by (nonlinear_arith);
    assert(edge_s(cx, cy, ax, ay, px, py) == (cy - ay) * (px - ax) - (cx - ax) * (py
        - ay)) by (nonlinear_arith);
}

/// The three edge weights of any point sum to the triangle's area.
pub proof fn lemma_weights_sum(ax: int, ay: int, bx: int, by: int, cx: int, cy: int, px: int, py: int)
    ensures
        edge_s(bx, by, cx, cy, px, py) + edge_s(cx, cy, ax, ay, px, py) + edge_s(
            ax,
            ay,
            bx,
            by,
            px,
            py,
        ) == edge_s(ax, ay, bx, by, cx, cy),
{
    lemma_edges_centered(ax, ay, bx, by, cx, cy, px, py);
    let ux = bx - ax;
    let uy = by - ay;
    let vx = cx - ax;
    let vy = cy - ay;
    let qx = px - ax;
    let qy = py - ay;
    assert((vx - ux) * (qy - uy) - (vy - uy) * (qx - ux) + (vy * qx - vx * qy) + (ux * qy - uy
        * qx) == ux * vy - uy * vx) by (nonlinear_arith);
}

/// The weighted vertex coordinates of any point recover the point scaled by
/// the area: the barycentric identity.
pub proof fn lemma_weights_coords(ax: int, ay: int, bx: int, by: int, cx: int, cy: int, px: int, py: int)
    ensures
        edge_s(bx, by, cx, cy, px, py) * ax + edge_s(cx, cy, ax, ay, px, py) * bx + edge_s(
            ax,
            ay,
            bx,
            by,
            px,
            py,
        ) * cx == edge_s(ax, ay, bx, by, cx, cy) * px,
        edge_s(bx, by, cx, cy, px, py) * ay + edge_s(cx, cy, ax, ay, px, py) * by + edge_s(
            ax,
            ay,
            bx,
            by,
            px,
            py,
        ) * cy == edge_s(ax, ay, bx, by, cx, cy) * py,
{
    lemma_edges_centered(ax, ay, bx, by, cx, cy, px, py);
    lemma_weights_sum(ax, ay, bx, by, cx, cy, px, py);
    let ux = bx - ax;
    let uy = by - ay;
    let vx = cx - ax;
    let vy = cy - ay;
    let qx = px - ax;
    let qy = py - ay;
    let a0 = edge_s(bx, by, cx, cy, px, py);
    let a1 = edge_s(cx, cy, ax, ay, px, py);
    let a2 = edge_s(ax, ay, bx, by, px, py);
    let area = edge_s(ax, ay, bx, by, cx, cy);
    assert(a1 * ux + a2 * vx == area * qx) by (nonlinear_arith)
        requires
            a1 == vy * qx - vx * qy,
            a2 == ux * qy - uy * qx,
            area == ux * vy - uy * vx,
    ;
    assert(a1 * uy + a2 * vy == area * qy) by (nonlinear_arith)
        requires
            a1 == vy * qx - vx * qy,
            a2 == ux * qy - uy * qx,
            area == ux * vy - uy * vx,
    ;
    assert(a0 * ax + a1 * bx + a2 * cx == (a0 + a1 + a2) * ax + (a1 * ux + a2
        * vx)) by (nonlinear_arith)
        requires
            ux == bx - ax,
            vx == cx - ax,
    ;
    assert(a0 * ay + a1 * by + a2 * cy == (a0 + a1 + a2) * ay + (a1 * uy + a2
        * vy)) by (nonlinear_arith)
        requires
            uy == by - ay,
            vy == cy - ay,
    ;
    assert((a0 + a1 + a2) * ax + area * qx == area * px) by (nonlinear_arith)
        requires
            a0 + a1 + a2 == area,
            qx == px - ax,
    ;
    assert((a0 + a1 + a2) * ay + area * qy == area * py) by (nonlinear_arith)
        requires
            a0 + a1 + a2 == area,
            qy == py - ay,
    ;
}

/// A covered point of a triangle with positive area lies within the
/// triangle's axis-aligned hull.
pub proof fn lemma_covered_in_hull(sa: Fx2, sb: Fx2, sc: Fx2, px: int, py: int)
    requires
        covered_s(sa, sb, sc, px, py),
        edge_s(sa.x as int, sa.y as int, sb.x as int, sb.y as int, sc.x as int, sc.y as int) > 0,
    ensures
        min3_s(sa.x as int, sb.x as int, sc.x as int) <= px <= max3_s(
            sa.x as int,
            sb.x as int,
            sc.x as int,
        ),
        min3_s(sa.y as int, sb.y as int, sc.y as int) <= py <= max3_s(
            sa.y as int,
            sb.y as int,
            sc.y as int,
        ),
{
    let ax = sa.x as int;
    let ay = sa.y as int;
    let bx = sb.x as int;
    let by = sb.y as int;
    let cx = sc.x as int;
    let cy = sc.y as int;
    let a0 = edge_s(bx, by, cx, cy, px, py);
    let a1 = edge_s(cx, cy, ax, ay, px, py);
    let a2 = edge_s(ax, ay, bx, by, px, py);
    let area = edge_s(ax, ay, bx, by, cx, cy);
    assert(a0 >= 0 && a1 >= 0 && a2 >= 0);
    lemma_weights_sum(ax, ay, bx, by, cx, cy, px, py);
    lemma_weights_coords(ax, ay, bx, by, cx, cy, px, py);
    let mnx = min3_s(ax, bx, cx);
    let mxx = max3_s(ax, bx, cx);
    let mny = min3_s(ay, by, cy);
    let mxy = max3_s(ay, by, cy);
    assert(area * mnx <= area * px && area * px <= area * mxx && area * mny <= area * py && area
        * py <= area * mxy) by (nonlinear_arith)
        requires
            a0 >= 0,
            a1 >= 0,
            a2 >= 0,
            a0 + a1 + a2 == area,
            a0 * ax + a1 * bx + a2 * cx == area * px,
            a0 * ay + a1 * by + a2 * cy == area * py,
            mnx <= ax && mnx <= bx && mnx <= cx,
            ax <= mxx && bx <= mxx && cx <= mxx,
            mny <= ay && mny <= by && mny <= cy,
            ay <= mxy && by <= mxy && cy <= mxy,
    ;
    assert(mnx <= px && px <= mxx && mny <= py && py <= mxy) by (nonlinear_arith)
        requires
            area > 0,
            area * mnx <= area * px,
            area * px <= area * mxx,
            area * mny <= area * py,
            area * py <= area * mxy,
    ;
}

/// A pixel whose column or row lies outside the clamped bounding box of a
/// positive-area triangle is not covered.
pub proof fn lemma_outside_bbox(
    sa: Fx2,
    sb: Fx2,
    sc: Fx2,
    w: int,
    h: int,
    i: int,
    j: int,
)
    requires
        iabs(sa.x as int) <= SCREEN_LIM,
        iabs(sa.y as int) <= SCREEN_LIM,
        iabs(sb.x as int) <= SCREEN_LIM,
        iabs(sb.y as int) <= SCREEN_LIM,
        iabs(sc.x as int) <= SCREEN_LIM,
        iabs(sc.y as int) <= SCREEN_LIM,
        1 <= w <= MAX_DIM,
        1 <= h <= MAX_DIM,
        0 <= i < w,
        0 <= j < h,
        i < bbox_lo_s(min3_s(sa.x as int, sb.x as int, sc.x as int)) || i > bbox_hi_s(
            max3_s(sa.x as int, sb.x as int, sc.x as int),
            w,
        ) || j < bbox_lo_s(min3_s(sa.y as int, sb.y as int, sc.y as int)) || j > bbox_hi_s(
            max3_s(sa.y as int, sb.y as int, sc.y as int),
            h,
        ),
        edge_s(sa.x as int, sa.y as int, sb.x as int, sb.y as int, sc.x as int, sc.y as int) > 0,
    ensures
        !covered_s(sa, sb, sc, pixel_center_s(i), pixel_center_s(j)),
{
    if covered_s(sa, sb, sc, pixel_center_s(i), pixel_center_s(j)) {
        lemma_covered_in_hull(sa, sb, sc, pixel_center_s(i), pixel_center_s(j));
        lemma_axis_in_bbox(
            min3_s(sa.x as int, sb.x as int, sc.x as int),
            max3_s(sa.x as int, sb.x as int, sc.x as int),
            w,
            i,
        );
        lemma_axis_in_bbox(
            min3_s(sa.y as int, sb.y as int, sc.y as int),
            max3_s(sa.y as int, sb.y as int, sc.y as int),
            h,
            j,
        );
    }
}

/// A pixel whose center lies between two fixed-point bounds lies between
/// the pixel rows or columns the bounds truncate to.
pub proof fn lemma_axis_in_bbox(mn: int, mx: int, size: int, i: int)
    requires
        1 <= size <= MAX_DIM,
        0 <= i < size,
        mn <= pixel_center_s(i) <= mx,
    ensures
        bbox_lo_s(mn) <= i <= bbox_hi_s(mx, size),
{
    let pc = pixel_center_s(i);
    if mn > 0 {
        let q = mn / (FP as int);
        assert(q * FP <= mn < (q + 1) * FP) by (nonlinear_arith)
            requires
                mn > 0,
                q == mn / 65536,
        ;
        assert(i * FP + FP_HALF >= mn);
        assert(i >= q) by (nonlinear_arith)
            requires
                i * 65536 + 32768 >= mn,
                q * 65536 <= mn,
        ;
    }
    let v = if mx <= size * FP {
        mx
    } else {
        size * FP
    };
    assert(pc < size * FP) by (nonlinear_arith)
        requires
            0 <= i < size,
            pc == i * 65536 + 32768,
    ;
    assert(pc <= v);
    assert(v > 0);
    let p = v / (FP as int);
    assert(p * FP <= v) by (nonlinear_arith)
        requires
            v > 0,
            p == v / 65536,
    ;
    assert(i <= p) by (nonlinear_arith)
        requires
            i * 65536 + 32768 <= v,
            p == v / 65536,
            v > 0,
            i >= 0,
    ;
}

/// One pixel of one triangle: tests coverage and depth, and on success
/// writes depth and shaded color, exactly as `pixel_s` says.
#[verifier::rlimit(100)]
fn process_pixel<S: Shader>(
    shader: &S,
    material: &Material,
    frame_buffer: &mut FrameBuffer,
    depth_buffer: &mut FrameBuffer,
    sa: Fx2,
    sb: Fx2,
    sc: Fx2,
    area: i128,
    a: &(Fx3, i64),
    b: &(Fx3, i64),
    c: &(Fx3, i64),
    v0: &Vertex,
    v1: &Vertex,
    v2: &Vertex,
    model_matrix: &FxMat4,
    x: usize,
    y: usize,
)
    requires
        shader.wf(),
        material.wf(),
        v0.wf(),
        v1.wf(),
        v2.wf(),
        mat_ok(*model_matrix),
        fx3_ok(a.0) && fx_ok(a.1 as int),
        fx3_ok(b.0) && fx_ok(b.1 as int),
        fx3_ok(c.0) && fx_ok(c.1 as int),
        old(frame_buffer).wf(),
        old(depth_buffer).wf(),
        old(depth_buffer).width == old(frame_buffer).width,
        old(depth_buffer).height == old(frame_buffer).height,
        x < old(frame_buffer).width,
        y < old(frame_buffer).height,
        sa.x == clip_to_screen_s(a.0.x as int, old(frame_buffer).width as int),
        sa.y == clip_to_screen_s(a.0.y as int, old(frame_buffer).height as int),
        sb.x == clip_to_screen_s(b.0.x as int, old(frame_buffer).width as int),
        sb.y == clip_to_screen_s(b.0.y as int, old(frame_buffer).height as int),
        sc.x == clip_to_screen_s(c.0.x as int, old(frame_buffer).width as int),
        sc.y == clip_to_screen_s(c.0.y as int, old(frame_buffer).height as int),
        iabs(sa.x as int) <= SCREEN_LIM && iabs(sa.y as int) <= SCREEN_LIM,
        iabs(sb.x as int) <= SCREEN_LIM && iabs(sb.y as int) <= SCREEN_LIM,
        iabs(sc.x as int) <= SCREEN_LIM && iabs(sc.y as int) <= SCREEN_LIM,
        area == edge_s(sa.x as int, sa.y as int, sb.x as int, sb.y as int, sc.x as int, sc.y as int),
        area > 0,
        iabs(area as int) <= 0x100000000000000000int,
    ensures
        final(frame_buffer).wf(),
        final(depth_buffer).wf(),
        final(frame_buffer).width == old(frame_buffer).width,
        final(frame_buffer).height == old(frame_buffer).height,
        final(depth_buffer).width == old(depth_buffer).width,
        final(depth_buffer).height == old(depth_buffer).height,
        ({
            let r = pixel_s(
                *shader,
                *material,
                *model_matrix,
                *a,
                *b,
                *c,
                *v0,
                *v1,
                *v2,
                old(frame_buffer).width as int,
                old(frame_buffer).height as int,
                x as int,
                y as int,
                old(frame_buffer).at_s(x as int, y as int),
                old(depth_buffer).at_s(x as int, y as int),
            );
            final(frame_buffer).at_s(x as int, y as int) == r.0 && final(depth_buffer).at_s(
                x as int,
                y as int,
            ) == r.1
        }),
        forall|i: int, j: int|
            0 <= i < old(frame_buffer).width && 0 <= j < old(frame_buffer).height && !(i == x && j
                == y) ==> final(frame_buffer).at_s(i, j) == old(frame_buffer).at_s(i, j)
                && final(depth_buffer).at_s(i, j) == old(depth_buffer).at_s(i, j),
{
    proof {
        reveal(pixel_s);
    }
    let px: i64 = (x as i64) * FP + FP_HALF;
    let py: i64 = (y as i64) * FP + FP_HALF;
    let p = Fx2 { x: px, y: py };
    let a0 = edge_function(&sb, &sc, &p);
    let a1 = edge_function(&sc, &sa, &p);
    let a2 = edge_function(&sa, &sb, &p);
    let d0x = sc.x - sb.x;
    let d0y = sc.y - sb.y;
    let d1x = sa.x - sc.x;
    let d1y = sa.y - sc.y;
    let d2x = sb.x - sa.x;
    let d2y = sb.y - sa.y;
    let in0 = if a0 == 0 {
        (d0y == 0 && d0x > 0) || d0y > 0
    } else {
        a0 > 0
    };
    let in1 = if a1 == 0 {
        (d1y == 0 && d1x > 0) || d1y > 0
    } else {
        a1 > 0
    };
    let in2 = if a2 == 0 {
        (d2y == 0 && d2x > 0) || d2y > 0
    } else {
        a2 > 0
    };
    if in0 && in1 && in2 {
        proof {
            assert(covered_s(sa, sb, sc, px as int, py as int));
            assert(iabs(a0 * a.0.z) <= 0x1000000000000000000000000000int && iabs(a1 * b.0.z)
                <= 0x1000000000000000000000000000int && iabs(a2 * c.0.z)
                <= 0x1000000000000000000000000000int && iabs(a0 * a.1)
                <= 0x1000000000000000000000000000int && iabs(a1 * b.1)
                <= 0x1000000000000000000000000000int && iabs(a2 * c.1)
                <= 0x1000000000000000000000000000int) by (nonlinear_arith)
                requires
                    iabs(a0 as int) <= 0x100000000000000000int,
                    iabs(a1 as int) <= 0x100000000000000000int,
                    iabs(a2 as int) <= 0x100000000000000000int,
                    iabs(a.0.z as int) <= 1099511627776,
                    iabs(b.0.z as int) <= 1099511627776,
                    iabs(c.0.z as int) <= 1099511627776,
                    iabs(a.1 as int) <= 1099511627776,
                    iabs(b.1 as int) <= 1099511627776,
                    iabs(c.1 as int) <= 1099511627776,
            ;
        }
        let znum: i128 = a0 * (a.0.z as i128) + a1 * (b.0.z as i128) + a2 * (c.0.z as i128);
        let z: i128 = tdiv128(znum, area);
        let d_old = depth_buffer.get_pixel(x, y);
        if z < d_old as i128 {
            let zenc: u32 = if z < 0 {
                0
            } else if z > 0xffffffff {
                0xffffffff
            } else {
                z as u32
            };
            depth_buffer.set_pixel(x, y, zenc);
            let p0 = v0.position;
            let p1 = v1.position;
            let p2 = v2.position;
            let mv0 = model_matrix.mul_vec4(Fx4 { x: p0.x, y: p0.y, z: p0.z, w: FP }).xyz().scale(
                a.1,
            );
            let mv1 = model_matrix.mul_vec4(Fx4 { x: p1.x, y: p1.y, z: p1.z, w: FP }).xyz().scale(
                b.1,
            );
            let mv2 = model_matrix.mul_vec4(Fx4 { x: p2.x, y: p2.y, z: p2.z, w: FP }).xyz().scale(
                c.1,
            );
            let d: i128 = a0 * (a.1 as i128) + a1 * (b.1 as i128) + a2 * (c.1 as i128);
            let position = Fx3 {
                x: interp3(a0, a1, a2, mv0.x, mv1.x, mv2.x, d),
                y: interp3(a0, a1, a2, mv0.y, mv1.y, mv2.y, d),
                z: interp3(a0, a1, a2, mv0.z, mv1.z, mv2.z, d),
            };
            let normal = Fx3 {
                x: interp3(
                    a0,
                    a1,
                    a2,
                    fx_mul(v0.normal.x, a.1),
                    fx_mul(v1.normal.x, b.1),
                    fx_mul(v2.normal.x, c.1),
                    d,
                ),
                y: interp3(
                    a0,
                    a1,
                    a2,
                    fx_mul(v0.normal.y, a.1),
                    fx_mul(v1.normal.y, b.1),
                    fx_mul(v2.normal.y, c.1),
                    d,
                ),
                z: interp3(
                    a0,
                    a1,
                    a2,
                    fx_mul(v0.normal.z, a.1),
                    fx_mul(v1.normal.z, b.1),
                    fx_mul(v2.normal.z, c.1),
                    d,
                ),
            };
            let tex_coord = Fx2 {
                x: interp3(
                    a0,
                    a1,
                    a2,
                    fx_mul(v0.tex_coord.x, a.1),
                    fx_mul(v1.tex_coord.x, b.1),
                    fx_mul(v2.tex_coord.x, c.1),
                    d,
                ),
                y: interp3(
                    a0,
                    a1,
                    a2,
                    fx_mul(v0.tex_coord.y, a.1),
                    fx_mul(v1.tex_coord.y, b.1),
                    fx_mul(v2.tex_coord.y, c.1),
                    d,
                ),
            };
            let shader_in = ShaderIn { position, normal, tex_coord };
            proof {
                assert(shader_in == shader_in_s(
                    *model_matrix,
                    *v0,
                    *v1,
                    *v2,
                    a.1,
                    b.1,
                    c.1,
                    a0 as int,
                    a1 as int,
                    a2 as int,
                ));
            }
            let color = shader.shade(material, &shader_in);
            let packed = from_vec3_rgb(&Fx3 { x: color.x, y: color.y, z: color.z });
            frame_buffer.set_pixel(x, y, packed);
        }
    }
}

fn min3e(a: i64, b: i64, c: i64) -> (r: i64)
    ensures
        r == min3_s(a as int, b as int, c as int),
{
    if a <= b && a <= c {
        a
    } else if b <= c {
        b
    } else {
        c
    }
}

fn max3e(a: i64, b: i64, c: i64) -> (r: i64)
    ensures
        r == max3_s(a as int, b as int, c as int),
{
    if a >= b && a >= c {
        a
    } else if b >= c {
        b
    } else {
        c
    }
}

fn bbox_lo(m: i64) -> (r: usize)
    requires
        iabs(m as int) <= SCREEN_LIM,
    ensures
        r == bbox_lo_s(m as int),
        r <= 16384,
{
    if m <= 0 {
        0
    } else {
        (((m as u64) / 65536) as usize)
    }
}

fn bbox_hi(m: i64, size: usize) -> (r: usize)
    requires
        iabs(m as int) <= SCREEN_LIM,
        1 <= size <= MAX_DIM,
    ensures
        r == bbox_hi_s(m as int, size as int),
        r <= size - 1,
{
    let cap: i64 = (size as i64) * FP;
    let v: i64 = if m <= cap {
        m
    } else {
        cap
    };
    let p: usize = if v <= 0 {
        0
    } else {
        (((v as u64) / 65536) as usize)
    };
    if p <= size - 1 {
        p
    } else {
        size - 1
    }
}

/// The facts a triangle's scanline loops carry: well-formed inputs, the
/// screen-space points of the three vertices, and a positive exact area.
pub open spec fn tri_setup_s<S: Shader>(
    shader: S,
    material: Material,
    model: FxMat4,
    a: (Fx3, i64),
    b: (Fx3, i64),
    c: (Fx3, i64),
    v0: Vertex,
    v1: Vertex,
    v2: Vertex,
    sa: Fx2,
    sb: Fx2,
    sc: Fx2,
    area: i128,
    w: int,
    h: int,
) -> bool {
    &&& shader.wf()
    &&& material.wf()
    &&& v0.wf()
    &&& v1.wf()
    &&& v2.wf()
    &&& mat_ok(model)
    &&& fx3_ok(a.0) && fx_ok(a.1 as int)
    &&& fx3_ok(b.0) && fx_ok(b.1 as int)
    &&& fx3_ok(c.0) && fx_ok(c.1 as int)
    &&& 1 <= w <= MAX_DIM
    &&& 1 <= h <= MAX_DIM
    &&& sa.x == clip_to_screen_s(a.0.x as int, w)
    &&& sa.y == clip_to_screen_s(a.0.y as int, h)
    &&& sb.x == clip_to_screen_s(b.0.x as int, w)
    &&& sb.y == clip_to_screen_s(b.0.y as int, h)
    &&& sc.x == clip_to_screen_s(c.0.x as int, w)
    &&& sc.y == clip_to_screen_s(c.0.y as int, h)
    &&& iabs(sa.x as int) <= SCREEN_LIM && iabs(sa.y as int) <= SCREEN_LIM
    &&& iabs(sb.x as int) <= SCREEN_LIM && iabs(sb.y as int) <= SCREEN_LIM
    &&& iabs(sc.x as int) <= SCREEN_LIM && iabs(sc.y as int) <= SCREEN_LIM
    &&& area == edge_s(sa.x as int, sa.y as int, sb.x as int, sb.y as int, sc.x as int, sc.y as int)
    &&& area > 0
    &&& iabs(area as int) <= 0x100000000000000000int
}

/// Rasterizes one projected triangle into the clamped bounding box of its
/// screen-space vertices.  Every pixel of the target ends exactly as
/// `pixel_s` maps its prior color and depth cells; a triangle of
/// non-positive screen area leaves every pixel unchanged.
#[verifier::rlimit(100)]
fn draw_triangle<S: Shader>(
    shader: &S,
    material: &Material,
    frame_buffer: &mut FrameBuffer,
    depth_buffer: &mut FrameBuffer,
    a: &(Fx3, i64),
    b: &(Fx3, i64),
    c: &(Fx3, i64),
    v0: &Vertex,
    v1: &Vertex,
    v2: &Vertex,
    model_matrix: &FxMat4,
)
    requires
        shader.wf(),
        material.wf(),
        v0.wf(),
        v1.wf(),
        v2.wf(),
        mat_ok(*model_matrix),
        fx3_ok(a.0) && fx_ok(a.1 as int),
        fx3_ok(b.0) && fx_ok(b.1 as int),
        fx3_ok(c.0) && fx_ok(c.1 as int),
        old(frame_buffer).wf(),
        old(depth_buffer).wf(),
        old(depth_buffer).width == old(frame_buffer).width,
        old(depth_buffer).height == old(frame_buffer).height,
    ensures
        final(frame_buffer).wf(),
        final(depth_buffer).wf(),
        final(frame_buffer).width == old(frame_buffer).width,
        final(frame_buffer).height == old(frame_buffer).height,
        final(depth_buffer).width == old(depth_buffer).width,
        final(depth_buffer).height == old(depth_buffer).height,
        forall|i: int, j: int|
            #![trigger final(frame_buffer).at_s(i, j)]
            0 <= i < old(frame_buffer).width && 0 <= j < old(frame_buffer).height ==> final(frame_buffer).at_s(i, j) == pixel_s(
                *shader,
                *material,
                *model_matrix,
                *a,
                *b,
                *c,
                *v0,
                *v1,
                *v2,
                old(frame_buffer).width as int,
                old(frame_buffer).height as int,
                i,
                j,
                old(frame_buffer).at_s(i, j),
                old(depth_buffer).at_s(i, j),
            ).0,
        forall|i: int, j: int|
            #![trigger final(depth_buffer).at_s(i, j)]
            0 <= i < old(frame_buffer).width && 0 <= j < old(frame_buffer).height ==> final(depth_buffer).at_s(i, j) == pixel_s(
                *shader,
                *material,
                *model_matrix,
                *a,
                *b,
                *c,
                *v0,
                *v1,
                *v2,
                old(frame_buffer).width as int,
                old(frame_buffer).height as int,
                i,
                j,
                old(frame_buffer).at_s(i, j),
                old(depth_buffer).at_s(i, j),
            ).1,
{
    let w = frame_buffer.width();
    let h = frame_buffer.height();
    if w == 0 || h == 0 {
        return ;
    }
    let sa = clip_to_screen_space(Fx2 { x: a.0.x, y: a.0.y }, (w, h));
    let sb = clip_to_screen_space(Fx2 { x: b.0.x, y: b.0.y }, (w, h));
    let sc = clip_to_screen_space(Fx2 { x: c.0.x, y: c.0.y }, (w, h));
    let area = edge_function(&sa, &sb, &sc);
    if area <= 0 {
        proof {
            reveal(pixel_s);
        }
        return ;
    }
    let x0 = bbox_lo(min3e(sa.x, sb.x, sc.x));
    let x1 = bbox_hi(max3e(sa.x, sb.x, sc.x), w);
    let y0 = bbox_lo(min3e(sa.y, sb.y, sc.y));
    let y1 = bbox_hi(max3e(sa.y, sb.y, sc.y), h);
    let mut x = x0;
    while x <= x1
        invariant
            tri_setup_s(
                *shader,
                *material,
                *model_matrix,
                *a,
                *b,
                *c,
                *v0,
                *v1,
                *v2,
                sa,
                sb,
                sc,
                area,
                w as int,
                h as int,
            ),
            frame_buffer.wf(),
            depth_buffer.wf(),
            frame_buffer.width == w,
            frame_buffer.height == h,
            depth_buffer.width == w,
            depth_buffer.height == h,
            x0 <= x <= MAX_DIM,
            x <= x1 + 1 || x == x0,
            x1 <= w - 1,
            y0 <= 16384,
            y1 <= h - 1,
            forall|i: int, j: int|
                #![trigger frame_buffer.at_s(i, j)]
                0 <= i < w && 0 <= j < h && x0 <= i < x && y0 <= j <= y1
                    ==> frame_buffer.at_s(i, j) == pixel_s(
                    *shader,
                    *material,
                    *model_matrix,
                    *a,
                    *b,
                    *c,
                    *v0,
                    *v1,
                    *v2,
                    w as int,
                    h as int,
                    i,
                    j,
                    old(frame_buffer).at_s(i, j),
                    old(depth_buffer).at_s(i, j),
                ).0,
            forall|i: int, j: int|
                #![trigger depth_buffer.at_s(i, j)]
                0 <= i < w && 0 <= j < h && x0 <= i < x && y0 <= j <= y1
                    ==> depth_buffer.at_s(i, j) == pixel_s(
                    *shader,
                    *material,
                    *model_matrix,
                    *a,
                    *b,
                    *c,
                    *v0,
                    *v1,
                    *v2,
                    w as int,
                    h as int,
                    i,
                    j,
                    old(frame_buffer).at_s(i, j),
                    old(depth_buffer).at_s(i, j),
                ).1,
            forall|i: int, j: int|
                #![trigger frame_buffer.at_s(i, j)]
                0 <= i < w && 0 <= j < h && !(x0 <= i < x && y0 <= j <= y1)
                    ==> frame_buffer.at_s(i, j) == old(frame_buffer).at_s(i, j),
            forall|i: int, j: int|
                #![trigger depth_buffer.at_s(i, j)]
                0 <= i < w && 0 <= j < h && !(x0 <= i < x && y0 <= j <= y1)
                    ==> depth_buffer.at_s(i, j) == old(depth_buffer).at_s(i, j),
        decreases x1 + 1 - x,
    {
        let mut y = y0;
        while y <= y1
            invariant
                tri_setup_s(
                    *shader,
                    *material,
                    *model_matrix,
                    *a,
                    *b,
                    *c,
                    *v0,
                    *v1,
                    *v2,
                    sa,
                    sb,
                    sc,
                    area,
                    w as int,
                    h as int,
                ),
                frame_buffer.wf(),
                depth_buffer.wf(),
                frame_buffer.width == w,
                frame_buffer.height == h,
                depth_buffer.width == w,
                depth_buffer.height == h,
                x0 <= x <= x1,
                x1 <= w - 1,
                y0 <= y <= 16385,
                y <= y1 + 1 || y == y0,
                y1 <= h - 1,
                forall|i: int, j: int|
                    #![trigger frame_buffer.at_s(i, j)]
                    0 <= i < w && 0 <= j < h && ((x0 <= i < x && y0 <= j <= y1) || (i == x && y0
                        <= j < y)) ==> frame_buffer.at_s(i, j) == pixel_s(
                        *shader,
                        *material,
                        *model_matrix,
                        *a,
                        *b,
                        *c,
                        *v0,
                        *v1,
                        *v2,
                        w as int,
                        h as int,
                        i,
                        j,
                        old(frame_buffer).at_s(i, j),
                        old(depth_buffer).at_s(i, j),
                ).0,
                forall|i: int, j: int|
                    #![trigger depth_buffer.at_s(i, j)]
                    0 <= i < w && 0 <= j < h && ((x0 <= i < x && y0 <= j <= y1) || (i == x && y0
                        <= j < y)) ==> depth_buffer.at_s(i, j) == pixel_s(
                        *shader,
                        *material,
                        *model_matrix,
                        *a,
                        *b,
                        *c,
                        *v0,
                        *v1,
                        *v2,
                        w as int,
                        h as int,
                        i,
                        j,
                        old(frame_buffer).at_s(i, j),
                        old(depth_buffer).at_s(i, j),
                ).1,
                forall|i: int, j: int|
                    #![trigger frame_buffer.at_s(i, j)]
                    0 <= i < w && 0 <= j < h && !((x0 <= i < x && y0 <= j <= y1) || (i == x && y0
                        <= j < y)) ==> frame_buffer.at_s(i, j) == old(frame_buffer).at_s(i, j),
                forall|i: int, j: int|
                    #![trigger depth_buffer.at_s(i, j)]
                    0 <= i < w && 0 <= j < h && !((x0 <= i < x && y0 <= j <= y1) || (i == x && y0
                        <= j < y)) ==> depth_buffer.at_s(i, j) == old(depth_buffer).at_s(i, j),
            decreases y1 + 1 - y,
        {
            process_pixel(
                shader,
                material,
                frame_buffer,
                depth_buffer,
                sa,
                sb,
                sc,
                area,
                a,
                b,
                c,
                v0,
                v1,
                v2,
                model_matrix,
                x,
                y,
            );
            y = y + 1;
        }
        x = x + 1;
        proof {
            assert forall|i: int, j: int|
                #![trigger frame_buffer.at_s(i, j)]
                #![trigger depth_buffer.at_s(i, j)]
                0 <= i < w && 0 <= j < h && x0 <= i < x && y0 <= j <= y1 implies frame_buffer.at_s(
                i,
                j,
            ) == pixel_s(
                *shader,
                *material,
                *model_matrix,
                *a,
                *b,
                *c,
                *v0,
                *v1,
                *v2,
                w as int,
                h as int,
                i,
                j,
                old(frame_buffer).at_s(i, j),
                old(depth_buffer).at_s(i, j),
            ).0 && depth_buffer.at_s(i, j) == pixel_s(
                *shader,
                *material,
                *model_matrix,
                *a,
                *b,
                *c,
                *v0,
                *v1,
                *v2,
                w as int,
                h as int,
                i,
                j,
                old(frame_buffer).at_s(i, j),
                old(depth_buffer).at_s(i, j),
            ).1 by {
                if i == x - 1 {
                    assert(y0 <= j < y);
                }
            }
        }
    }
    proof {
        assert forall|i: int, j: int|
            #![trigger frame_buffer.at_s(i, j)]
            #![trigger depth_buffer.at_s(i, j)]
            0 <= i < w && 0 <= j < h implies frame_buffer.at_s(i, j) == pixel_s(
            *shader,
            *material,
            *model_matrix,
            *a,
            *b,
            *c,
            *v0,
            *v1,
            *v2,
            w as int,
            h as int,
            i,
            j,
            old(frame_buffer).at_s(i, j),
            old(depth_buffer).at_s(i, j),
        ).0 && depth_buffer.at_s(i, j) == pixel_s(
            *shader,
            *material,
            *model_matrix,
            *a,
            *b,
            *c,
            *v0,
            *v1,
            *v2,
            w as int,
            h as int,
            i,
            j,
            old(frame_buffer).at_s(i, j),
            old(depth_buffer).at_s(i, j),
        ).1 by {
            if !(x0 <= i <= x1 && y0 <= j <= y1) {
                reveal(pixel_s);
                lemma_outside_bbox(sa, sb, sc, w as int, h as int, i, j);
            }
        }
    }
}



/// The two buffers after one triangle, cell by cell: each pixel's color and
/// depth are `pixel_s` of their prior values.
pub open spec fn tri_apply_s<S: Shader>(
    shader: S,
    mat: Material,
    model: FxMat4,
    a: (Fx3, i64),
    b: (Fx3, i64),
    c: (Fx3, i64),
    v0: Vertex,
    v1: Vertex,
    v2: Vertex,
    w: int,
    h: int,
    fb: Seq<u32>,
    db: Seq<u32>,
) -> (Seq<u32>, Seq<u32>) {
    (
        Seq::new(
            fb.len(),
            |i: int|
                pixel_s(
                    shader,
                    mat,
                    model,
                    a,
                    b,
                    c,
                    v0,
                    v1,
                    v2,
                    w,
                    h,
                    i % w,
                    i / w,
                    fb[i],
                    db[i],
                ).0,
        ),
        Seq::new(
            db.len(),
            |i: int|
                pixel_s(
                    shader,
                    mat,
                    model,
                    a,
                    b,
                    c,
                    v0,
                    v1,
                    v2,
                    w,
                    h,
                    i % w,
                    i / w,
                    fb[i],
                    db[i],
                ).1,
        ),
    )
}

/// Pixel-by-pixel facts about two buffer pairs lift to the sequence form.
proof fn lemma_tri_apply_frame<S: Shader>(
    shader: S,
    mat: Material,
    model: FxMat4,
    a: (Fx3, i64),
    b: (Fx3, i64),
    c: (Fx3, i64),
    v0: Vertex,
    v1: Vertex,
    v2: Vertex,
    fb_old: FrameBuffer,
    db_old: FrameBuffer,
    fb_new: FrameBuffer,
    db_new: FrameBuffer,
)
    requires
        fb_old.wf(),
        db_old.wf(),
        fb_new.wf(),
        db_new.wf(),
        db_old.width == fb_old.width && db_old.height == fb_old.height,
        fb_new.width == fb_old.width && fb_new.height == fb_old.height,
        db_new.width == fb_old.width && db_new.height == fb_old.height,
        forall|i: int, j: int|
            #![trigger fb_new.at_s(i, j)]
            0 <= i < fb_old.width && 0 <= j < fb_old.height ==> {
                let r = pixel_s(
                    shader,
                    mat,
                    model,
                    a,
                    b,
                    c,
                    v0,
                    v1,
                    v2,
                    fb_old.width as int,
                    fb_old.height as int,
                    i,
                    j,
                    fb_old.at_s(i, j),
                    db_old.at_s(i, j),
                );
                fb_new.at_s(i, j) == r.0 && db_new.at_s(i, j) == r.1
            },
    ensures
        (fb_new.data@, db_new.data@) == tri_apply_s(
            shader,
            mat,
            model,
            a,
            b,
            c,
            v0,
            v1,
            v2,
            fb_old.width as int,
            fb_old.height as int,
            fb_old.data@,
            db_old.data@,
        ),
{
    let w = fb_old.width as int;
    let h = fb_old.height as int;
    let target = tri_apply_s(
        shader,
        mat,
        model,
        a,
        b,
        c,
        v0,
        v1,
        v2,
        w,
        h,
        fb_old.data@,
        db_old.data@,
    );
    assert forall|i: int| 0 <= i < fb_new.data@.len() implies fb_new.data@[i] == target.0[i]
        && db_new.data@[i] == target.1[i] by {
        assert(w * h > 0);
        assert(w > 0 && h > 0) by (nonlinear_arith)
            requires
                w * h > 0,
                w >= 0,
                h >= 0,
        ;
        let x = i % w;
        let y = i / w;
        assert(i == w * y + x && 0 <= x < w && 0 <= y) by (nonlinear_arith)
            requires
                w > 0,
                i >= 0,
                x == i % w,
                y == i / w,
        ;
        assert(y < h) by (nonlinear_arith)
            requires
                w > 0,
                h > 0,
                i < w * h,
                i == w * y + x,
                0 <= x < w,
                0 <= y,
        ;
        assert(y * w + x == i) by (nonlinear_arith)
            requires
                i == w * y + x,
        ;
        assert(fb_new.at_s(x, y) == fb_new.data@[i] && db_new.at_s(x, y) == db_new.data@[i]
            && fb_old.at_s(x, y) == fb_old.data@[i] && db_old.at_s(x, y) == db_old.data@[i]);
    }
    assert(fb_new.data@ =~= target.0);
    assert(db_new.data@ =~= target.1);
}

/// The triangle `k` of a vertex list taken as consecutive triples.
pub open spec fn tri_of_s(vertices: Seq<Vertex>, k: int) -> (Vertex, Vertex, Vertex) {
    (vertices[3 * k], vertices[3 * k + 1], vertices[3 * k + 2])
}

/// The triangle `k` of an index list taken as consecutive triples.
pub open spec fn tri_of_indexed_s(vertices: Seq<Vertex>, indices: Seq<u32>, k: int) -> (
    Vertex,
    Vertex,
    Vertex,
) {
    (
        vertices[indices[3 * k] as int],
        vertices[indices[3 * k + 1] as int],
        vertices[indices[3 * k + 2] as int],
    )
}

/// The two buffers after the first `k` triangles of a list, drawn in order:
/// each triangle is projected through `mvp` and applied cell by cell.
pub open spec fn draw_tris_s<S: Shader>(
    shader: S,
    mat: Material,
    mvp: FxMat4,
    model: FxMat4,
    tris: Seq<(Vertex, Vertex, Vertex)>,
    k: nat,
    w: int,
    h: int,
    fb: Seq<u32>,
    db: Seq<u32>,
) -> (Seq<u32>, Seq<u32>)
    decreases k,
{
    if k == 0 {
        (fb, db)
    } else {
        let prev = draw_tris_s(shader, mat, mvp, model, tris, (k - 1) as nat, w, h, fb, db);
        let t = tris[k - 1];
        let pa = project_s(t.0.position, mvp);
        let pb = project_s(t.1.position, mvp);
        let pc = project_s(t.2.position, mvp);
        tri_apply_s(shader, mat, model, pa, pb, pc, t.0, t.1, t.2, w, h, prev.0, prev.1)
    }
}

/// An all-zero buffer sequence: the contents of a freshly resized depth
/// buffer.
pub open spec fn zero_seq_s(n: nat) -> Seq<u32> {
    Seq::new(n, |i: int| 0u32)
}

/// The pipeline: the three transforms and the owned depth buffer.
pub struct Pipeline {
    pub model_matrix: FxMat4,
    pub view_matrix: FxMat4,
    pub proj_matrix: FxMat4,
    pub depth_buffer: FrameBuffer,
}

impl Pipeline {
    pub open spec fn wf(self) -> bool {
        &&& mat_ok(self.model_matrix)
        &&& mat_ok(self.view_matrix)
        &&& mat_ok(self.proj_matrix)
        &&& self.depth_buffer.wf()
    }

    /// The depth buffer state a draw call starts from: the old contents
    /// when the target size is unchanged, a zeroed buffer after a resize.
    pub open spec fn start_depth_s(self, w: int, h: int) -> Seq<u32> {
        if self.depth_buffer.width == w && self.depth_buffer.height == h {
            self.depth_buffer.data@
        } else {
            zero_seq_s((w * h) as nat)
        }
    }

    /// All three transforms start as the identity; the depth buffer starts
    /// empty and adapts to the first target drawn into.
    pub fn new() -> (r: Pipeline)
        ensures
            r.wf(),
            r.model_matrix == FxMat4::identity_s(),
            r.view_matrix == FxMat4::identity_s(),
            r.proj_matrix == FxMat4::identity_s(),
            r.depth_buffer.width == 0,
            r.depth_buffer.height == 0,
    {
        Pipeline {
            model_matrix: FxMat4::identity(),
            view_matrix: FxMat4::identity(),
            proj_matrix: FxMat4::identity(),
            depth_buffer: FrameBuffer::new(0, 0),
        }
    }

    pub fn set_model_matrix(&mut self, model_matrix: FxMat4)
        requires
            mat_ok(model_matrix),
    ensures
            final(self).model_matrix == model_matrix,
            final(self).view_matrix == old(self).view_matrix,
            final(self).proj_matrix == old(self).proj_matrix,
            final(self).depth_buffer == old(self).depth_buffer,
    {
        self.model_matrix = model_matrix;
    }

    pub fn set_view_matrix(&mut self, view_matrix: FxMat4)
        requires
            mat_ok(view_matrix),
    ensures
            final(self).view_matrix == view_matrix,
            final(self).model_matrix == old(self).model_matrix,
            final(self).proj_matrix == old(self).proj_matrix,
            final(self).depth_buffer == old(self).depth_buffer,
    {
        self.view_matrix = view_matrix;
    }

    pub fn set_proj_matrix(&mut self, proj_matrix: FxMat4)
        requires
            mat_ok(proj_matrix),
    ensures
            final(self).proj_matrix == proj_matrix,
            final(self).model_matrix == old(self).model_matrix,
            final(self).view_matrix == old(self).view_matrix,
            final(self).depth_buffer == old(self).depth_buffer,
    {
        self.proj_matrix = proj_matrix;
    }

    /// Every depth cell becomes the far sentinel: the caller must clear
    /// before each frame, and after any resize, for depth testing to accept
    /// fresh geometry.
    pub fn clear_depth(&mut self)
        requires
            old(self).wf(),
        ensures
            final(self).wf(),
            final(self).model_matrix == old(self).model_matrix,
            final(self).view_matrix == old(self).view_matrix,
            final(self).proj_matrix == old(self).proj_matrix,
            final(self).depth_buffer.width == old(self).depth_buffer.width,
            final(self).depth_buffer.height == old(self).depth_buffer.height,
            forall|x: int, y: int|
                0 <= x < old(self).depth_buffer.width && 0 <= y < old(self).depth_buffer.height
                    ==> final(self).depth_buffer.at_s(x, y) == 0xffffffffu32,
    {
        self.depth_buffer.clear(0xffffffff);
    }

    /// Resizes the depth buffer to the target's dimensions when they
    /// differ.  The fresh buffer is zeroed, not set to the far sentinel:
    /// after a resize the caller must clear depth, or the next draw is
    /// depth-rejected everywhere.
    fn adapt_depth_buffer(&mut self, frame_buffer: &FrameBuffer)
        requires
            old(self).wf(),
            frame_buffer.wf(),
        ensures
            final(self).wf(),
            final(self).model_matrix == old(self).model_matrix,
            final(self).view_matrix == old(self).view_matrix,
            final(self).proj_matrix == old(self).proj_matrix,
            final(self).depth_buffer.width == frame_buffer.width,
            final(self).depth_buffer.height == frame_buffer.height,
            final(self).depth_buffer.data@ == old(self).start_depth_s(
                frame_buffer.width as int,
                frame_buffer.height as int,
            ),
    {
        if self.depth_buffer.width() != frame_buffer.width() || self.depth_buffer.height()
            != frame_buffer.height() {
            self.depth_buffer = FrameBuffer::new(frame_buffer.width(), frame_buffer.height());
            proof {
                let w = frame_buffer.width as int;
                let h = frame_buffer.height as int;
                assert forall|i: int| 0 <= i < self.depth_buffer.data@.len() implies
                    self.depth_buffer.data@[i] == 0u32 by {
                    assert(w > 0 && h > 0) by (nonlinear_arith)
                        requires
                            w * h > 0,
                            w >= 0,
                            h >= 0,
                    ;
                    let x = i % w;
                    let y = i / w;
                    assert(i == w * y + x && 0 <= x < w && 0 <= y) by (nonlinear_arith)
                        requires
                            w > 0,
                            i >= 0,
                            x == i % w,
                            y == i / w,
                    ;
                    assert(y < h) by (nonlinear_arith)
                        requires
                            w > 0,
                            h > 0,
                            i < w * h,
                            i == w * y + x,
                            0 <= x < w,
                            0 <= y,
                    ;
                    assert(y * w + x == i) by (nonlinear_arith)
                        requires
                            i == w * y + x,
                    ;
                    assert(self.depth_buffer.at_s(x, y) == 0u32);
                }
                assert(self.depth_buffer.data@ =~= zero_seq_s((w * h) as nat));
            }
        }
    }

    /// Draws consecutive vertex triples as triangles: the depth buffer is
    /// first adapted to the target, the combined transform is the
    /// projection matrix times the view matrix times the model matrix, and
    /// the buffers end exactly as the fold of `pixel_s` over the triangle
    /// list, in order.  A trailing remainder of one or two vertices is
    /// ignored.
    #[verifier::rlimit(100)]
    pub fn draw_vertices<S: Shader>(
        &mut self,
        shader: &S,
        material: &Material,
        frame_buffer: &mut FrameBuffer,
        vertices: &Vec<Vertex>,
    )
        requires
            old(self).wf(),
            shader.wf(),
            material.wf(),
            old(frame_buffer).wf(),
            forall|i: int| 0 <= i < vertices@.len() ==> vertices@[i].wf(),
        ensures
            final(self).wf(),
            final(frame_buffer).wf(),
            final(self).model_matrix == old(self).model_matrix,
            final(self).view_matrix == old(self).view_matrix,
            final(self).proj_matrix == old(self).proj_matrix,
            final(frame_buffer).width == old(frame_buffer).width,
            final(frame_buffer).height == old(frame_buffer).height,
            final(self).depth_buffer.width == old(frame_buffer).width,
            final(self).depth_buffer.height == old(frame_buffer).height,
            ({
                let w = old(frame_buffer).width as int;
                let h = old(frame_buffer).height as int;
                let mvp = old(self).proj_matrix.mul_s(old(self).view_matrix).mul_s(
                    old(self).model_matrix,
                );
                let tris = Seq::new(vertices@.len() / 3, |k: int| tri_of_s(vertices@, k));
                let r = draw_tris_s(
                    *shader,
                    *material,
                    mvp,
                    old(self).model_matrix,
                    tris,
                    vertices@.len() / 3,
                    w,
                    h,
                    old(frame_buffer).data@,
                    old(self).start_depth_s(w, h),
                );
                final(frame_buffer).data@ == r.0 && final(self).depth_buffer.data@ == r.1
            }),
    {
        self.adapt_depth_buffer(frame_buffer);
        let mvp = self.proj_matrix.mul(self.view_matrix).mul(self.model_matrix);
        let model = self.model_matrix;
        let ghost tris = Seq::new(vertices@.len() / 3, |k: int| tri_of_s(vertices@, k));
        let ghost fb0 = frame_buffer.data@;
        let ghost db0 = self.depth_buffer.data@;
        let triangle_count = vertices.len() / 3;
        let mut i: usize = 0;
        while i < triangle_count
            invariant
                shader.wf(),
                material.wf(),
                forall|k: int| 0 <= k < vertices@.len() ==> vertices@[k].wf(),
                mat_ok(mvp),
                mat_ok(model),
                self.wf(),
                frame_buffer.wf(),
                self.model_matrix == old(self).model_matrix,
                self.view_matrix == old(self).view_matrix,
                self.proj_matrix == old(self).proj_matrix,
                model == old(self).model_matrix,
                mvp == old(self).proj_matrix.mul_s(old(self).view_matrix).mul_s(
                    old(self).model_matrix,
                ),
                frame_buffer.width == old(frame_buffer).width,
                frame_buffer.height == old(frame_buffer).height,
                self.depth_buffer.width == frame_buffer.width,
                self.depth_buffer.height == frame_buffer.height,
                i <= triangle_count,
                vertices@.len() <= usize::MAX,
                triangle_count == vertices@.len() / 3,
                tris == Seq::new(vertices@.len() / 3, |k: int| tri_of_s(vertices@, k)),
                fb0 == old(frame_buffer).data@,
                db0 == old(self).start_depth_s(
                    old(frame_buffer).width as int,
                    old(frame_buffer).height as int,
                ),
                ({
                    let r = draw_tris_s(
                        *shader,
                        *material,
                        mvp,
                        model,
                        tris,
                        i as nat,
                        frame_buffer.width as int,
                        frame_buffer.height as int,
                        fb0,
                        db0,
                    );
                    frame_buffer.data@ == r.0 && self.depth_buffer.data@ == r.1
                }),
            decreases triangle_count - i,
        {
            proof {
                assert(3 * (vertices@.len() / 3) <= vertices@.len()) by (nonlinear_arith);
                assert(3 * i + 2 < vertices@.len()) by (nonlinear_arith)
                    requires
                        i < vertices@.len() / 3,
                        3 * (vertices@.len() / 3) <= vertices@.len(),
                ;
                assert(i * 3 == 3 * i) by (nonlinear_arith);
                assert(i * 3 + 2 < vertices@.len());
            }
            let v0 = &vertices[i * 3];
            let v1 = &vertices[i * 3 + 1];
            let v2 = &vertices[i * 3 + 2];
            let pa = project(&v0.position, &mvp);
            let pb = project(&v1.position, &mvp);
            let pc = project(&v2.position, &mvp);
            let ghost fb_pre: FrameBuffer = *frame_buffer;
            let ghost db_pre: FrameBuffer = self.depth_buffer;
            draw_triangle(
                shader,
                material,
                frame_buffer,
                &mut self.depth_buffer,
                &pa,
                &pb,
                &pc,
                v0,
                v1,
                v2,
                &model,
            );
            proof {
                lemma_tri_apply_frame(
                    *shader,
                    *material,
                    model,
                    pa,
                    pb,
                    pc,
                    *v0,
                    *v1,
                    *v2,
                    fb_pre,
                    db_pre,
                    *frame_buffer,
                    self.depth_buffer,
                );
                assert(tris[i as int] == tri_of_s(vertices@, i as int));
            }
            i = i + 1;
        }
    }

    /// Draws consecutive index triples as triangles; every index must
    /// address a vertex.  Otherwise exactly as `draw_vertices`.
    #[verifier::rlimit(100)]
    pub fn draw_vertices_indexed<S: Shader>(
        &mut self,
        shader: &S,
        material: &Material,
        frame_buffer: &mut FrameBuffer,
        vertices: &Vec<Vertex>,
        indices: &Vec<u32>,
    )
        requires
            old(self).wf(),
            shader.wf(),
            material.wf(),
            old(frame_buffer).wf(),
            forall|i: int| 0 <= i < vertices@.len() ==> vertices@[i].wf(),
            forall|i: int| 0 <= i < indices@.len() ==> (indices@[i] as int) < vertices@.len(),
        ensures
            final(self).wf(),
            final(frame_buffer).wf(),
            final(self).model_matrix == old(self).model_matrix,
            final(self).view_matrix == old(self).view_matrix,
            final(self).proj_matrix == old(self).proj_matrix,
            final(frame_buffer).width == old(frame_buffer).width,
            final(frame_buffer).height == old(frame_buffer).height,
            final(self).depth_buffer.width == old(frame_buffer).width,
            final(self).depth_buffer.height == old(frame_buffer).height,
            ({
                let w = old(frame_buffer).width as int;
                let h = old(frame_buffer).height as int;
                let mvp = old(self).proj_matrix.mul_s(old(self).view_matrix).mul_s(
                    old(self).model_matrix,
                );
                let tris = Seq::new(
                    indices@.len() / 3,
                    |k: int| tri_of_indexed_s(vertices@, indices@, k),
                );
                let r = draw_tris_s(
                    *shader,
                    *material,
                    mvp,
                    old(self).model_matrix,
                    tris,
                    indices@.len() / 3,
                    w,
                    h,
                    old(frame_buffer).data@,
                    old(self).start_depth_s(w, h),
                );
                final(frame_buffer).data@ == r.0 && final(self).depth_buffer.data@ == r.1
            }),
    {
        self.adapt_depth_buffer(frame_buffer);
        let mvp = self.proj_matrix.mul(self.view_matrix).mul(self.model_matrix);
        let model = self.model_matrix;
        let ghost tris = Seq::new(
            indices@.len() / 3,
            |k: int| tri_of_indexed_s(vertices@, indices@, k),
        );
        let ghost fb0 = frame_buffer.data@;
        let ghost db0 = self.depth_buffer.data@;
        let triangle_count = indices.len() / 3;
        let mut i: usize = 0;
        while i < triangle_count
            invariant
                shader.wf(),
                material.wf(),
                forall|k: int| 0 <= k < vertices@.len() ==> vertices@[k].wf(),
                forall|k: int| 0 <= k < indices@.len() ==> (indices@[k] as int) < vertices@.len(),
                mat_ok(mvp),
                mat_ok(model),
                self.wf(),
                frame_buffer.wf(),
                self.model_matrix == old(self).model_matrix,
                self.view_matrix == old(self).view_matrix,
                self.proj_matrix == old(self).proj_matrix,
                model == old(self).model_matrix,
                mvp == old(self).proj_matrix.mul_s(old(self).view_matrix).mul_s(
                    old(self).model_matrix,
                ),
                frame_buffer.width == old(frame_buffer).width,
                frame_buffer.height == old(frame_buffer).height,
                self.depth_buffer.width == frame_buffer.width,
                self.depth_buffer.height == frame_buffer.height,
                i <= triangle_count,
                indices@.len() <= usize::MAX,
                triangle_count == indices@.len() / 3,
                tris == Seq::new(
                    indices@.len() / 3,
                    |k: int| tri_of_indexed_s(vertices@, indices@, k),
                ),
                fb0 == old(frame_buffer).data@,
                db0 == old(self).start_depth_s(
                    old(frame_buffer).width as int,
                    old(frame_buffer).height as int,
                ),
                ({
                    let r = draw_tris_s(
                        *shader,
                        *material,
                        mvp,
                        model,
                        tris,
                        i as nat,
                        frame_buffer.width as int,
                        frame_buffer.height as int,
                        fb0,
                        db0,
                    );
                    frame_buffer.data@ == r.0 && self.depth_buffer.data@ == r.1
                }),
            decreases triangle_count - i,
        {
            proof {
                assert(3 * (indices@.len() / 3) <= indices@.len()) by (nonlinear_arith);
                assert(3 * i + 2 < indices@.len()) by (nonlinear_arith)
                    requires
                        i < indices@.len() / 3,
                        3 * (indices@.len() / 3) <= indices@.len(),
                ;
                assert(i * 3 == 3 * i) by (nonlinear_arith);
                assert(i * 3 + 2 < indices@.len());
            }
            let i0 = indices[i * 3];
            let i1 = indices[i * 3 + 1];
            let i2 = indices[i * 3 + 2];
            let v0 = &vertices[i0 as usize];
            let v1 = &vertices[i1 as usize];
            let v2 = &vertices[i2 as usize];
            let pa = project(&v0.position, &mvp);
            let pb = project(&v1.position, &mvp);
            let pc = project(&v2.position, &mvp);
            let ghost fb_pre: FrameBuffer = *frame_buffer;
            let ghost db_pre: FrameBuffer = self.depth_buffer;
            draw_triangle(
                shader,
                material,
                frame_buffer,
                &mut self.depth_buffer,
                &pa,
                &pb,
                &pc,
                v0,
                v1,
                v2,
                &model,
            );
            proof {
                lemma_tri_apply_frame(
                    *shader,
                    *material,
                    model,
                    pa,
                    pb,
                    pc,
                    *v0,
                    *v1,
                    *v2,
                    fb_pre,
                    db_pre,
                    *frame_buffer,
                    self.depth_buffer,
                );
                assert(tris[i as int] == tri_of_indexed_s(vertices@, indices@, i as int));
            }
            i = i + 1;
        }
    }
}

} // verus!
