//! The physically based shading stage: a single-light Cook-Torrance model
//! with GGX distribution, Smith geometry and Schlick's Fresnel term, over
//! deterministic fixed-point arithmetic.
//!
//! The reference constants (pi, the dielectric reflectance 0.04, the light
//! direction, the radiance 1.1, the ambient 0.03, the ambient occlusion 0.1,
//! the epsilon 0.0001 and the gamma exponent 1/2.2) appear here as their
//! nearest fixed-point forms; the gamma exponent is the exact fraction 5/11.

use vstd::prelude::*;
use crate::fx::{fx_ok, fx_add_s, fx_sub_s, fx_mul_s, fx_div_s, clamp_s, gamma_fx_s, FP, fx_add,
    fx_sub, fx_mul, fx_div, fx_clamp, gamma_fx};
use crate::geom::{Fx3, Fx4, fx3_ok, fx4_ok};
use crate::model::Material;
use crate::shader::{Shader, ShaderIn};

verus! {

/// Pi at fixed-point scale.
pub const PI_FX: i64 = 205887;

/// The dielectric base reflectance 0.04.
pub const F0_DIELECTRIC: i64 = 2621;

/// The light radiance 1.1.
pub const RADIANCE_FX: i64 = 72090;

/// The ambient factor 0.03.
pub const AMBIENT_FX: i64 = 1966;

/// The fixed ambient-occlusion term 0.1.
pub const AO_FX: i64 = 6554;

/// The specular denominator epsilon 0.0001.
pub const EPS_FX: i64 = 7;

/// One eighth.
pub const EIGHTH_FX: i64 = 8192;

/// Four.
pub const FOUR_FX: i64 = 262144;

pub open spec fn max0_s(v: int) -> int {
    if v < 0 {
        0
    } else {
        v
    }
}

pub fn max0(v: i64) -> (r: i64)
    ensures
        r == max0_s(v as int),
{
    if v < 0 {
        0
    } else {
        v
    }
}

/// The scalar blend `a * (1 - t) + b * t`.
pub open spec fn lerp_s(a: int, b: int, t: int) -> int {
    fx_add_s(fx_mul_s(a, fx_sub_s(FP as int, t)), fx_mul_s(b, t))
}

pub fn lerp(a: i64, b: i64, t: i64) -> (r: i64)
    requires
        fx_ok(a as int),
        fx_ok(b as int),
        fx_ok(t as int),
    ensures
        r == lerp_s(a as int, b as int, t as int),
        fx_ok(r as int),
{
    fx_add(fx_mul(a, fx_sub(FP, t)), fx_mul(b, t))
}

/// The componentwise blend of two vectors.
pub open spec fn lerp_v3_s(a: Fx3, b: Fx3, t: int) -> Fx3 {
    Fx3 {
        x: lerp_s(a.x as int, b.x as int, t) as i64,
        y: lerp_s(a.y as int, b.y as int, t) as i64,
        z: lerp_s(a.z as int, b.z as int, t) as i64,
    }
}

pub fn lerp_v3(a: Fx3, b: Fx3, t: i64) -> (r: Fx3)
    requires
        fx3_ok(a),
        fx3_ok(b),
        fx_ok(t as int),
    ensures
        r == lerp_v3_s(a, b, t as int),
        fx3_ok(r),
{
    Fx3 { x: lerp(a.x, b.x, t), y: lerp(a.y, b.y, t), z: lerp(a.z, b.z, t) }
}

/// The GGX normal distribution
/// `a2 / (pi * (ndh2 * (a2 - 1) + 1)^2)` with `a = roughness^2`.
pub open spec fn distribution_ggx_s(n: Fx3, h: Fx3, roughness: int) -> int {
    let a = fx_mul_s(roughness, roughness);
    let a2 = fx_mul_s(a, a);
    let n_dot_h = max0_s(n.dot_s(h));
    let n_dot_h2 = fx_mul_s(n_dot_h, n_dot_h);
    let d = fx_add_s(fx_mul_s(n_dot_h2, fx_sub_s(a2, FP as int)), FP as int);
    let denom = fx_mul_s(PI_FX as int, fx_mul_s(d, d));
    fx_div_s(a2, denom)
}

pub fn distribution_ggx(n: &Fx3, h: Fx3, roughness: i64) -> (r: i64)
    requires
        fx3_ok(*n),
        fx3_ok(h),
        fx_ok(roughness as int),
    ensures
        r == distribution_ggx_s(*n, h, roughness as int),
        fx_ok(r as int),
{
    let a = fx_mul(roughness, roughness);
    let a2 = fx_mul(a, a);
    let n_dot_h = max0(n.dot(h));
    let n_dot_h2 = fx_mul(n_dot_h, n_dot_h);
    let d = fx_add(fx_mul(n_dot_h2, fx_sub(a2, FP)), FP);
    let denom = fx_mul(PI_FX, fx_mul(d, d));
    fx_div(a2, denom)
}

/// Schlick-GGX geometry along one direction:
/// `ndv / (ndv * (1 - k) + k)` with `k = (roughness + 1)^2 / 8`.
pub open spec fn geometry_schlick_ggx_s(n_dot_v: int, roughness: int) -> int {
    let r1 = fx_add_s(roughness, FP as int);
    let k = fx_mul_s(fx_mul_s(r1, r1), EIGHTH_FX as int);
    let denom = fx_add_s(fx_mul_s(n_dot_v, fx_sub_s(FP as int, k)), k);
    fx_div_s(n_dot_v, denom)
}

pub fn geometry_schlick_ggx(n_dot_v: i64, roughness: i64) -> (r: i64)
    requires
        fx_ok(n_dot_v as int),
        fx_ok(roughness as int),
    ensures
        r == geometry_schlick_ggx_s(n_dot_v as int, roughness as int),
        fx_ok(r as int),
{
    let r1 = fx_add(roughness, FP);
    let k = fx_mul(fx_mul(r1, r1), EIGHTH_FX);
    let denom = fx_add(fx_mul(n_dot_v, fx_sub(FP, k)), k);
    fx_div(n_dot_v, denom)
}

/// Smith's shadowing-masking term: the product of the Schlick-GGX terms of
/// the view and light directions.
pub open spec fn geometry_smith_s(n: Fx3, v: Fx3, l: Fx3, roughness: int) -> int {
    let n_dot_v = max0_s(n.dot_s(v));
    let n_dot_l = max0_s(n.dot_s(l));
    fx_mul_s(
        geometry_schlick_ggx_s(n_dot_l, roughness),
        geometry_schlick_ggx_s(n_dot_v, roughness),
    )
}

pub fn geometry_smith(n: &Fx3, v: Fx3, l: Fx3, roughness: i64) -> (r: i64)
    requires
        fx3_ok(*n),
        fx3_ok(v),
        fx3_ok(l),
        fx_ok(roughness as int),
    ensures
        r == geometry_smith_s(*n, v, l, roughness as int),
        fx_ok(r as int),
{
    let n_dot_v = max0(n.dot(v));
    let n_dot_l = max0(n.dot(l));
    let ggx2 = geometry_schlick_ggx(n_dot_v, roughness);
    let ggx1 = geometry_schlick_ggx(n_dot_l, roughness);
    fx_mul(ggx1, ggx2)
}

/// Schlick's Fresnel approximation
/// `f0 + (1 - f0) * clamp(1 - cos, 0, 1)^5`.
pub open spec fn fresnel_schlick_s(cos_theta: int, f0: Fx3) -> Fx3 {
    let t = clamp_s(fx_sub_s(FP as int, cos_theta), 0, FP as int);
    let t2 = fx_mul_s(t, t);
    let t4 = fx_mul_s(t2, t2);
    let t5 = fx_mul_s(t4, t);
    Fx3 {
        x: fx_add_s(f0.x as int, fx_mul_s(fx_sub_s(FP as int, f0.x as int), t5)) as i64,
        y: fx_add_s(f0.y as int, fx_mul_s(fx_sub_s(FP as int, f0.y as int), t5)) as i64,
        z: fx_add_s(f0.z as int, fx_mul_s(fx_sub_s(FP as int, f0.z as int), t5)) as i64,
    }
}

pub fn fresnel_schlick(cos_theta: i64, f0: Fx3) -> (r: Fx3)
    requires
        fx_ok(cos_theta as int),
        fx3_ok(f0),
    ensures
        r == fresnel_schlick_s(cos_theta as int, f0),
        fx3_ok(r),
{
    let t = fx_clamp(fx_sub(FP, cos_theta), 0, FP);
    let t2 = fx_mul(t, t);
    let t4 = fx_mul(t2, t2);
    let t5 = fx_mul(t4, t);
    Fx3 {
        x: fx_add(f0.x, fx_mul(fx_sub(FP, f0.x), t5)),
        y: fx_add(f0.y, fx_mul(fx_sub(FP, f0.y), t5)),
        z: fx_add(f0.z, fx_mul(fx_sub(FP, f0.z), t5)),
    }
}

/// Division of each component by a scalar.
pub open spec fn div3_s(v: Fx3, d: int) -> Fx3 {
    Fx3 {
        x: fx_div_s(v.x as int, d) as i64,
        y: fx_div_s(v.y as int, d) as i64,
        z: fx_div_s(v.z as int, d) as i64,
    }
}

pub fn div3(v: Fx3, d: i64) -> (r: Fx3)
    requires
        fx3_ok(v),
    ensures
        r == div3_s(v, d as int),
        fx3_ok(r),
{
    Fx3 { x: fx_div(v.x, d), y: fx_div(v.y, d), z: fx_div(v.z, d) }
}

/// Reinhard tonemapping `c / (c + 1)` with the result clamped into the unit
/// interval, so that gamma encoding is always defined.
pub open spec fn tonemap_s(c: int) -> int {
    clamp_s(fx_div_s(c, fx_add_s(c, FP as int)), 0, FP as int)
}

pub fn tonemap(c: i64) -> (r: i64)
    requires
        fx_ok(c as int),
    ensures
        r == tonemap_s(c as int),
        0 <= r <= FP,
{
    fx_clamp(fx_div(c, fx_add(c, FP)), 0, FP)
}

/// One output channel: tonemapped, then gamma encoded.
pub open spec fn out_channel_s(c: int) -> int {
    gamma_fx_s(tonemap_s(c))
}

pub fn out_channel(c: i64) -> (r: i64)
    requires
        fx_ok(c as int),
    ensures
        r == out_channel_s(c as int),
        0 <= r <= FP,
{
    gamma_fx(tonemap(c))
}

/// The physically based shading stage: camera position and the sampling
/// toggle are fixed before the draw call, so shading stays a pure function
/// of material and inputs.
pub struct PBRShader {
    pub view_position: Fx3,
    pub sample_bilinear: bool,
}

impl Default for PBRShader {
    fn default() -> (r: PBRShader)
        ensures
            r.view_position == Fx3::zero_s(),
            r.sample_bilinear == true,
    {
        PBRShader { view_position: Fx3::zero(), sample_bilinear: true }
    }
}

/// The whole Cook-Torrance chain as one spec function.
pub open spec fn pbr_shade_s(shader: PBRShader, material: Material, inputs: ShaderIn) -> Fx4 {
    let u = inputs.tex_coord.x as int;
    let v_t = inputs.tex_coord.y as int;
    let bl = shader.sample_bilinear;
    let base_color = if material.base_color_texture is Some {
        material.base_color_factor.xyz_s().mul_s(
            material.base_color_texture->Some_0.sample_pixel_s(u, v_t, bl).xyz_s(),
        )
    } else {
        material.base_color_factor.xyz_s()
    };
    let n = inputs.normal;
    let metallic = if material.metallic_roughness_texture is Some {
        fx_mul_s(
            material.metallic_factor as int,
            material.metallic_roughness_texture->Some_0.sample_pixel_s(u, v_t, bl).z as int,
        ) as i64
    } else {
        material.metallic_factor
    };
    let roughness = if material.metallic_roughness_texture is Some {
        fx_mul_s(
            material.roughness_factor as int,
            material.metallic_roughness_texture->Some_0.sample_pixel_s(u, v_t, bl).y as int,
        ) as i64
    } else {
        material.roughness_factor
    };
    let occlusion = if material.occlusion_texture is Some {
        lerp_s(
            material.occlusion_texture->Some_0.sample_pixel_s(u, v_t, bl).x as int,
            FP as int,
            fx_sub_s(FP as int, material.occlusion_strength as int),
        ) as i64
    } else {
        FP
    };
    let emission = if material.emissive_texture is Some {
        material.emissive_texture->Some_0.sample_pixel_s(u, v_t, bl).xyz_s().mul_s(
            material.emissive_factor,
        )
    } else {
        Fx3::zero_s()
    };
    let view = shader.view_position.sub_s(inputs.position).normalize_s();
    let f0 = lerp_v3_s(Fx3::splat_s(F0_DIELECTRIC), base_color, metallic as int);
    let light = Fx3 { x: 6554, y: (-FP) as i64, z: 0 }.neg_s().normalize_s();
    let half = view.add_s(light).normalize_s();
    let ndf = distribution_ggx_s(n, half, roughness as int);
    let geo = geometry_smith_s(n, view, light, roughness as int);
    let fres = fresnel_schlick_s(clamp_s(half.dot_s(view), 0, FP as int), f0);
    let numerator = fres.scale_s(fx_mul_s(ndf, geo) as i64);
    let n_dot_v = max0_s(n.dot_s(view));
    let n_dot_l = max0_s(n.dot_s(light));
    let denominator = fx_add_s(
        fx_mul_s(fx_mul_s(FOUR_FX as int, n_dot_v), n_dot_l),
        EPS_FX as int,
    );
    let specular = div3_s(numerator, denominator);
    let kd = Fx3::splat_s(FP).sub_s(fres).scale_s(fx_sub_s(FP as int, metallic as int) as i64);
    let diffuse = div3_s(kd.mul_s(base_color), PI_FX as int);
    let lo = diffuse.add_s(specular).mul_s(Fx3::splat_s(RADIANCE_FX)).scale_s(n_dot_l as i64);
    let ambient = Fx3::splat_s(AMBIENT_FX).mul_s(base_color).scale_s(AO_FX);
    let color = ambient.add_s(lo).scale_s(occlusion).add_s(emission);
    Fx4 {
        x: out_channel_s(color.x as int) as i64,
        y: out_channel_s(color.y as int) as i64,
        z: out_channel_s(color.z as int) as i64,
        w: FP,
    }
}

impl Shader for PBRShader {
    open spec fn wf(&self) -> bool {
        fx3_ok(self.view_position)
    }

    open spec fn shade_s(&self, material: &Material, inputs: &ShaderIn) -> Fx4 {
        pbr_shade_s(*self, *material, *inputs)
    }

    #[verifier::rlimit(100)]
    fn shade(&self, material: &Material, inputs: &ShaderIn) -> (r: Fx4) {
        let u = inputs.tex_coord.x;
        let v_t = inputs.tex_coord.y;
        let bl = self.sample_bilinear;
        let mut base_color = material.base_color_factor.xyz();
        match &material.base_color_texture {
            Some(tex) => {
                base_color = base_color.mul(tex.sample_pixel(u, v_t, bl).xyz());
            },
            None => {},
        }
        let n = inputs.normal;
        let mut metallic = material.metallic_factor;
        let mut roughness = material.roughness_factor;
        match &material.metallic_roughness_texture {
            Some(tex) => {
                let s = tex.sample_pixel(u, v_t, bl);
                metallic = fx_mul(metallic, s.z);
                roughness = fx_mul(roughness, s.y);
            },
            None => {},
        }
        let mut occlusion = FP;
        match &material.occlusion_texture {
            Some(tex) => {
                let s = tex.sample_pixel(u, v_t, bl);
                occlusion = lerp(s.x, FP, fx_sub(FP, material.occlusion_strength));
            },
            None => {},
        }
        let mut emission = Fx3::zero();
        match &material.emissive_texture {
            Some(tex) => {
                let s = tex.sample_pixel(u, v_t, bl);
                emission = s.xyz().mul(material.emissive_factor);
            },
            None => {},
        }
        let view = self.view_position.sub(inputs.position).normalize();
        let f0 = lerp_v3(Fx3::splat(F0_DIELECTRIC), base_color, metallic);
        let light = Fx3::new(6554, -FP, 0).neg().normalize();
        let half = view.add(light).normalize();
        let ndf = distribution_ggx(&n, half, roughness);
        let geo = geometry_smith(&n, view, light, roughness);
        let fres = fresnel_schlick(fx_clamp(half.dot(view), 0, FP), f0);
        let numerator = fres.scale(fx_mul(ndf, geo));
        let n_dot_v = max0(n.dot(view));
        let n_dot_l = max0(n.dot(light));
        let denominator = fx_add(fx_mul(fx_mul(FOUR_FX, n_dot_v), n_dot_l), EPS_FX);
        let specular = div3(numerator, denominator);
        let kd = Fx3::splat(FP).sub(fres).scale(fx_sub(FP, metallic));
        let diffuse = div3(kd.mul(base_color), PI_FX);
        let lo = diffuse.add(specular).mul(Fx3::splat(RADIANCE_FX)).scale(n_dot_l);
        let ambient = Fx3::splat(AMBIENT_FX).mul(base_color).scale(AO_FX);
        let color = ambient.add(lo).scale(occlusion).add(emission);
        Fx4 {
            x: out_channel(color.x),
            y: out_channel(color.y),
            z: out_channel(color.z),
            w: FP,
        }
    }
}

} // verus!
