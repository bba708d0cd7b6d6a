use rusterizer::fx::{fx_add, fx_mul, fx_sub, gamma_fx, tdiv128, to255, FP, FP_HALF};
use rusterizer::geom::{Fx2, Fx3, Fx4};
use rusterizer::image::{fx4_add, fx4_lerp, fx4_scale, Image};
use rusterizer::model::Material;
use rusterizer::pbr_shader::PBRShader;
use rusterizer::pipeline::from_u8_rgb;
use rusterizer::shader::{BaseColorShader, Shader, ShaderIn};

fn chan(b: i64) -> i64 {
    (b * 6553600) / 25599
}

fn rgba_2x2() -> Image {
    // four texels, four channels each, distinct bytes
    let data: Vec<u8> = vec![
        10, 20, 30, 40, // texel (0, 0)
        50, 60, 70, 80, // texel (1, 0)
        90, 100, 110, 120, // texel (0, 1)
        130, 140, 150, 160, // texel (1, 1)
    ];
    Image::new(data, 2, 2, 4)
}

fn shader_in_at(u: i64, v: i64) -> ShaderIn {
    ShaderIn {
        position: Fx3 { x: 0, y: 0, z: 0 },
        normal: Fx3 { x: 0, y: 0, z: FP },
        tex_coord: Fx2 { x: u, y: v },
    }
}

#[test]
fn nearest_sampling_at_texel_center() {
    let img = rgba_2x2();
    // the exact center of the first texel of a two-by-two image
    let r = img.sample_pixel(16384, 16384, false);
    assert_eq!(r, Fx4 { x: chan(10), y: chan(20), z: chan(30), w: chan(40) });
    // the wrap divisor is one less than the dimension, so on a two-by-two
    // image every center addresses the first texel
    let r2 = img.sample_pixel(49152, 49152, false);
    assert_eq!(r2, Fx4 { x: chan(10), y: chan(20), z: chan(30), w: chan(40) });
}

#[test]
fn bilinear_matches_four_tap_average() {
    let data: Vec<u8> = vec![10, 40, 90, 160, 250, 30, 70, 110, 130];
    let img = Image::new(data, 3, 3, 1);
    let (u, v) = (30000i64, 42000i64);
    let got = img.sample_pixel(u, v, true);
    // the four-tap neighbor averaging formula, composed from public pieces
    let iw = FP / 3;
    let ih = FP / 3;
    let tl = img.get_pixel(fx_sub(u, iw), fx_sub(v, ih));
    let bl = img.get_pixel(fx_sub(u, iw), fx_add(v, ih));
    let br = img.get_pixel(fx_add(u, iw), fx_add(v, ih));
    let tr = img.get_pixel(fx_add(u, iw), fx_sub(v, ih));
    let right = fx4_scale(fx4_add(br, tr), FP_HALF);
    let left = fx4_scale(fx4_add(bl, tl), FP_HALF);
    let top = fx4_scale(fx4_add(tr, tl), FP_HALF);
    let bottom = fx4_scale(fx4_add(br, bl), FP_HALF);
    let sx = fx_mul(u, 3 * FP);
    let sy = fx_mul(v, 3 * FP);
    let xd = fx_sub(sx, (tdiv128(sx as i128, FP as i128) as i64) * FP);
    let yd = fx_sub(sy, (tdiv128(sy as i128, FP as i128) as i64) * FP);
    let want = fx4_scale(fx4_add(fx4_lerp(left, right, xd), fx4_lerp(top, bottom, yd)), FP_HALF);
    assert_eq!(got, want);
}

#[test]
fn pbr_shading_is_deterministic() {
    let mut mat = Material::default();
    mat.base_color_factor = Fx4 { x: FP, y: FP / 2, z: FP / 4, w: FP };
    mat.metallic_factor = FP / 2;
    mat.roughness_factor = FP / 3;
    mat.base_color_texture = Some(rgba_2x2());
    let shader = PBRShader {
        view_position: Fx3 { x: 0, y: 0, z: 2 * FP },
        sample_bilinear: true,
    };
    let sin = shader_in_at(20000, 30000);
    let c1 = shader.shade(&mat, &sin);
    let c2 = shader.shade(&mat, &sin);
    assert_eq!(c1, c2);
    assert_eq!(c1.w, FP);
    assert!(0 <= c1.x && c1.x <= FP);
    assert!(0 <= c1.y && c1.y <= FP);
    assert!(0 <= c1.z && c1.z <= FP);
}

#[test]
fn pbr_unlit_surface_keeps_ambient_only() {
    // a normal facing away from the light still gets ambient light, so the
    // output is small but not black for a white material
    let mat = Material::default();
    let shader = PBRShader {
        view_position: Fx3 { x: 0, y: 0, z: 2 * FP },
        sample_bilinear: false,
    };
    let mut sin = shader_in_at(0, 0);
    sin.normal = Fx3 { x: 0, y: -FP, z: 0 };
    let c = shader.shade(&mat, &sin);
    assert!(c.x > 0 && c.x < FP / 4);
    assert_eq!(c.x, c.y);
    assert_eq!(c.y, c.z);
}

#[test]
fn base_color_passthrough_uses_factor_and_texture() {
    let mut mat = Material::default();
    mat.base_color_factor = Fx4 { x: FP, y: FP, z: FP, w: FP };
    let shader = BaseColorShader::default();
    let sin = shader_in_at(16384, 16384);
    // without a texture the factor passes through with full alpha
    let c = shader.shade(&mat, &sin);
    assert_eq!(c, Fx4 { x: FP, y: FP, z: FP, w: FP });
    // with a texture the sampled texel multiplies the factor
    mat.base_color_texture = Some(rgba_2x2());
    let c2 = shader.shade(&mat, &sin);
    assert_eq!(
        c2,
        Fx4 {
            x: fx_mul(FP, chan(10)),
            y: fx_mul(FP, chan(20)),
            z: fx_mul(FP, chan(30)),
            w: FP,
        },
    );
}

#[test]
fn gamma_encoding_exact_values() {
    assert_eq!(gamma_fx(0), 0);
    assert_eq!(gamma_fx(FP), FP);
    // the exact floor of 2048 * (1/2) ^ (5/11), scaled back up
    assert_eq!(gamma_fx(FP / 2), 47808);
}

#[test]
fn packing_exact_values() {
    assert_eq!(to255(0), 0);
    assert_eq!(to255(FP), 255);
    assert_eq!(to255(FP / 2), 127);
    assert_eq!(to255(-5), 0);
    assert_eq!(to255(2 * FP), 255);
    assert_eq!(from_u8_rgb(1, 2, 3), 0x010203);
    assert_eq!(from_u8_rgb(255, 0, 0), 0xFF0000);
}

#[test]
fn image_decode_channel_values() {
    let img = Image::new(vec![200, 255, 30, 40], 2, 2, 1);
    let r = img.get_pixel(0, 0);
    assert_eq!(r, Fx4 { x: chan(200), y: 0, z: 0, w: 0 });
}
