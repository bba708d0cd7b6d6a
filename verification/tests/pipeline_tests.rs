use rusterizer::fx::FP;
use rusterizer::geom::FxMat4;
use rusterizer::pbr_shader::PBRShader;
use rusterizer::framebuffer::FrameBuffer;
use rusterizer::geom::{Fx2, Fx3, Fx4};
use rusterizer::model::{Material, Vertex};
use rusterizer::pipeline::Pipeline;
use rusterizer::shader::BaseColorShader;

/// The normalized device coordinate whose screen mapping lands exactly on
/// pixel coordinate `s` of a target `size` pixels wide.
fn ndc_for(s: i64, size: i64) -> i64 {
    FP - (131072 * s) / size
}

fn vertex_at(sx: i64, sy: i64, z: i64, size: i64) -> Vertex {
    let mut v = Vertex::default();
    v.position = Fx3 { x: ndc_for(sx, size), y: ndc_for(sy, size), z };
    v
}

fn red_material() -> Material {
    let mut m = Material::default();
    m.base_color_factor = Fx4 { x: FP, y: 0, z: 0, w: FP };
    m
}

fn green_material() -> Material {
    let mut m = Material::default();
    m.base_color_factor = Fx4 { x: 0, y: FP, z: 0, w: FP };
    m
}

/// Draws a list of screen-space triangles (vertices in pixel units, one
/// shared square target) and returns the color buffer.
fn draw(size: usize, tris: &[(i64, i64)], z: i64, mat: &Material) -> FrameBuffer {
    let shader = BaseColorShader::default();
    let mut pipeline = Pipeline::new();
    let mut fb = FrameBuffer::new(size, size);
    let verts: Vec<Vertex> = tris
        .iter()
        .map(|&(sx, sy)| vertex_at(sx, sy, z, size as i64))
        .collect();
    // the first draw only sizes the depth buffer; depth starts at zero there
    pipeline.draw_vertices(&shader, mat, &mut fb, &verts);
    pipeline.clear_depth();
    pipeline.draw_vertices(&shader, mat, &mut fb, &verts);
    fb
}

/// The fill rule over doubled integer coordinates: vertices at `2 * v`,
/// pixel centers at `2 * x + 1`.
fn edge(ax: i64, ay: i64, bx: i64, by: i64, px: i64, py: i64) -> i64 {
    (bx - ax) * (py - ay) - (by - ay) * (px - ax)
}

fn inside(e: i64, dx: i64, dy: i64) -> bool {
    if e == 0 {
        (dy == 0 && dx > 0) || dy > 0
    } else {
        e > 0
    }
}

fn covered(tri: &[(i64, i64)], x: i64, y: i64) -> bool {
    let (ax, ay) = (2 * tri[0].0, 2 * tri[0].1);
    let (bx, by) = (2 * tri[1].0, 2 * tri[1].1);
    let (cx, cy) = (2 * tri[2].0, 2 * tri[2].1);
    let (px, py) = (2 * x + 1, 2 * y + 1);
    let a0 = edge(bx, by, cx, cy, px, py);
    let a1 = edge(cx, cy, ax, ay, px, py);
    let a2 = edge(ax, ay, bx, by, px, py);
    inside(a0, cx - bx, cy - by) && inside(a1, ax - cx, ay - cy) && inside(a2, bx - ax, by - ay)
        && edge(ax, ay, bx, by, cx, cy) > 0
}

#[test]
fn single_triangle_end_to_end() {
    // a single triangle with screen-space vertices (256,100), (400,400),
    // (100,400) on a 512 by 512 target, opaque red, pass-through shading
    let mut fb = draw(512, &[(256, 100), (400, 400), (100, 400)], 32768, &red_material());
    assert_eq!(fb.get_pixel(256, 300), 0xFF0000);
    assert_eq!(fb.get_pixel(0, 0), 0);
    // a vertex corner pixel outside the triangle stays untouched
    assert_eq!(fb.get_pixel(510, 510), 0);
}

#[test]
fn coverage_matches_edge_rule() {
    let tri = [(1i64, 1i64), (6, 1), (1, 6)];
    let mut fb = draw(8, &tri, 32768, &red_material());
    for y in 0..8i64 {
        for x in 0..8i64 {
            let drawn = fb.get_pixel(x as usize, y as usize) != 0;
            assert_eq!(drawn, covered(&tri, x, y), "pixel ({}, {})", x, y);
        }
    }
}

#[test]
fn shared_edge_partition() {
    // a quad split along its diagonal: every pixel of the union is drawn
    // by exactly one of the two triangles
    let t1 = [(1i64, 1i64), (6, 1), (6, 6)];
    let t2 = [(1i64, 1i64), (6, 6), (1, 6)];
    let mut fb1 = draw(8, &t1, 32768, &red_material());
    let mut fb2 = draw(8, &t2, 32768, &red_material());
    let quad: Vec<(i64, i64)> = t1.iter().chain(t2.iter()).cloned().collect();
    let mut fbq = draw(8, &quad, 32768, &red_material());
    for y in 0..8usize {
        for x in 0..8usize {
            let d1 = fb1.get_pixel(x, y) != 0;
            let d2 = fb2.get_pixel(x, y) != 0;
            let dq = fbq.get_pixel(x, y) != 0;
            assert!(!(d1 && d2), "pixel ({}, {}) drawn by both triangles", x, y);
            assert_eq!(d1 || d2, dq, "pixel ({}, {}) union mismatch", x, y);
        }
    }
}

#[test]
fn depth_rejects_equal_and_clear_restores() {
    let tri = [(1i64, 1i64), (6, 1), (1, 6)];
    let shader = BaseColorShader::default();
    let size = 8usize;
    let mut pipeline = Pipeline::new();
    let mut fb = FrameBuffer::new(size, size);
    let verts: Vec<Vertex> = tri.iter().map(|&(sx, sy)| vertex_at(sx, sy, 32768, size as i64)).collect();
    pipeline.draw_vertices(&shader, &red_material(), &mut fb, &verts);
    pipeline.clear_depth();
    pipeline.draw_vertices(&shader, &red_material(), &mut fb, &verts);
    let first: Vec<u32> = (0..size * size).map(|i| fb.get_pixel(i % size, i / size)).collect();
    // an equal depth is not nearer: a second identical draw in green writes nothing
    pipeline.draw_vertices(&shader, &green_material(), &mut fb, &verts);
    for i in 0..size * size {
        assert_eq!(fb.get_pixel(i % size, i / size), first[i]);
    }
    // with an intervening clear the green draw lands exactly where red did
    pipeline.clear_depth();
    pipeline.draw_vertices(&shader, &green_material(), &mut fb, &verts);
    for i in 0..size * size {
        let c = fb.get_pixel(i % size, i / size);
        if first[i] == 0xFF0000 {
            assert_eq!(c, 0x00FF00);
        } else {
            assert_eq!(c, first[i]);
        }
    }
}

#[test]
fn whole_draw_repeat_and_clear_restore() {
    // the multi-triangle form: a whole quad drawn again without a clear
    // changes nothing; drawn again after a clear it reproduces itself
    let quad = [(1i64, 1i64), (6, 1), (6, 6), (1, 1), (6, 6), (1, 6)];
    let shader = BaseColorShader::default();
    let size = 8usize;
    let mut pipeline = Pipeline::new();
    let mut fb = FrameBuffer::new(size, size);
    let verts: Vec<Vertex> = quad.iter().map(|&(sx, sy)| vertex_at(sx, sy, 32768, size as i64)).collect();
    pipeline.draw_vertices(&shader, &red_material(), &mut fb, &verts);
    pipeline.clear_depth();
    pipeline.draw_vertices(&shader, &red_material(), &mut fb, &verts);
    let first: Vec<u32> = (0..size * size).map(|i| fb.get_pixel(i % size, i / size)).collect();
    pipeline.draw_vertices(&shader, &green_material(), &mut fb, &verts);
    for i in 0..size * size {
        assert_eq!(fb.get_pixel(i % size, i / size), first[i]);
    }
    pipeline.clear_depth();
    pipeline.draw_vertices(&shader, &red_material(), &mut fb, &verts);
    for i in 0..size * size {
        assert_eq!(fb.get_pixel(i % size, i / size), first[i]);
    }
}

#[test]
fn bounding_box_clamps_to_target() {
    // a triangle reaching far outside the target draws only inside it
    let tri = [(-5i64, -5i64), (20, -5), (-5, 20)];
    let mut fb = draw(8, &tri, 32768, &red_material());
    for y in 0..8i64 {
        for x in 0..8i64 {
            let drawn = fb.get_pixel(x as usize, y as usize) != 0;
            assert_eq!(drawn, covered(&tri, x, y), "pixel ({}, {})", x, y);
        }
    }
}

#[test]
fn degenerate_triangle_draws_nothing() {
    let tri = [(1i64, 1i64), (6, 6), (3, 3)];
    let mut fb = draw(8, &tri, 32768, &red_material());
    for y in 0..8usize {
        for x in 0..8usize {
            assert_eq!(fb.get_pixel(x, y), 0);
        }
    }
}

#[test]
fn vertex_remainder_is_ignored() {
    let tri = [(1i64, 1i64), (6, 1), (1, 6)];
    let mut fb3 = draw(8, &tri, 32768, &red_material());
    let with_extra = [(1i64, 1i64), (6, 1), (1, 6), (7, 7)];
    let mut fb4 = draw(8, &with_extra, 32768, &red_material());
    for y in 0..8usize {
        for x in 0..8usize {
            assert_eq!(fb3.get_pixel(x, y), fb4.get_pixel(x, y));
        }
    }
}

#[test]
fn indexed_draw_matches_direct() {
    let tri = [(1i64, 1i64), (6, 1), (1, 6)];
    let shader = BaseColorShader::default();
    let size = 8usize;
    let verts: Vec<Vertex> = tri.iter().map(|&(sx, sy)| vertex_at(sx, sy, 32768, size as i64)).collect();
    let indices: Vec<u32> = vec![0, 1, 2];
    let mut pipeline = Pipeline::new();
    let mut fb = FrameBuffer::new(size, size);
    pipeline.draw_vertices_indexed(&shader, &red_material(), &mut fb, &verts, &indices);
    pipeline.clear_depth();
    pipeline.draw_vertices_indexed(&shader, &red_material(), &mut fb, &verts, &indices);
    let mut fbd = draw(8, &tri, 32768, &red_material());
    for y in 0..8usize {
        for x in 0..8usize {
            assert_eq!(fb.get_pixel(x, y), fbd.get_pixel(x, y));
        }
    }
}

#[test]
fn screen_mapping_is_exact() {
    // the screen mapping flips and scales: ndc 1 maps to column 0, ndc -1
    // to the far edge
    let r = rusterizer::pipeline::clip_to_screen_space(Fx2 { x: FP, y: -FP }, (512, 512));
    assert_eq!(r.x, 0);
    assert_eq!(r.y, 512 * FP);
}

#[test]
fn projection_under_identity_is_unchanged() {
    let m = rusterizer::geom::FxMat4::identity();
    let p = Fx3 { x: 1234, y: -5678, z: 9999 };
    let (ndc, rec) = rusterizer::pipeline::project(&p, &m);
    assert_eq!(rec, FP);
    assert_eq!(ndc, p);
}

#[test]
fn perspective_interpolation_is_tessellation_independent() {
    // a planar quad seen in perspective, with an attribute field that is
    // affine over the plane: whichever diagonal splits the quad, the
    // interpolated inputs at a pixel reconstruct the same field, so the
    // shaded images agree up to fixed-point rounding
    fn vert(px: i64, py: i64, pz: i64) -> Vertex {
        let mut v = Vertex::default();
        v.position = Fx3 { x: px, y: py, z: pz };
        v.normal = Fx3 { x: px / 4, y: py / 4, z: FP };
        v
    }
    // corners of a planar quad: two at depth one, two at depth two
    let a = vert(32768, 32768, -FP);
    let b = vert(-FP, FP, -2 * FP);
    let c = vert(-FP, -FP, -2 * FP);
    let d = vert(32768, -32768, -FP);

    let mut proj = FxMat4::identity();
    proj.m22 = FP;
    proj.m32 = -FP;
    proj.m33 = 0;

    let shader = PBRShader { view_position: Fx3 { x: 0, y: 0, z: 2 * FP }, sample_bilinear: false };
    let mat = Material::default();

    let render = |verts: Vec<Vertex>| -> FrameBuffer {
        let mut pipeline = Pipeline::new();
        pipeline.set_proj_matrix(proj);
        let mut fb = FrameBuffer::new(64, 64);
        pipeline.draw_vertices(&shader, &mat, &mut fb, &verts);
        pipeline.clear_depth();
        pipeline.draw_vertices(&shader, &mat, &mut fb, &verts);
        fb
    };
    // the same quad split along either diagonal
    let mut fb1 = render(vec![
        a.clone(), b.clone(), c.clone(), a.clone(), c.clone(), d.clone(),
    ]);
    let mut fb2 = render(vec![
        a.clone(), b.clone(), d.clone(), b.clone(), c.clone(), d.clone(),
    ]);
    let mut interior = 0;
    for y in 0..64usize {
        for x in 0..64usize {
            let c1 = fb1.get_pixel(x, y);
            let c2 = fb2.get_pixel(x, y);
            assert_eq!(c1 == 0, c2 == 0, "coverage differs at ({}, {})", x, y);
            if c1 != 0 {
                interior += 1;
                for shift in [16u32, 8, 0] {
                    let b1 = (c1 >> shift) & 0xFF;
                    let b2 = (c2 >> shift) & 0xFF;
                    assert!(
                        (b1 as i64 - b2 as i64).abs() <= 8,
                        "channel differs at ({}, {}): {:#x} vs {:#x}",
                        x,
                        y,
                        c1,
                        c2,
                    );
                }
            }
        }
    }
    assert!(interior > 500);
}

#[test]
fn timer_smoke() {
    let mut t = rusterizer::timer::Timer::new();
    t.reset();
    let _ = t.start;
}
