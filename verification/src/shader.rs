//! The per-pixel shading stage: a pure function from material and
//! interpolated inputs to a color.

use vstd::prelude::*;
use crate::fx::{fx_ok, fx_mul_s, FP, fx_mul};
use crate::geom::{Fx2, Fx3, Fx4, fx2_ok, fx3_ok, fx4_ok};
use crate::model::Material;

verus! {

/// The interpolated inputs of one covered pixel: world-space position,
/// world-space normal and one texture coordinate pair.
pub struct ShaderIn {
    pub position: Fx3,
    pub normal: Fx3,
    pub tex_coord: Fx2,
}

impl ShaderIn {
    pub open spec fn wf(self) -> bool {
        &&& fx3_ok(self.position)
        &&& fx3_ok(self.normal)
        &&& fx2_ok(self.tex_coord)
    }
}

/// A shading stage.  `shade` must equal the pure spec `shade_s` of its two
/// inputs and the shader's own read-only configuration, so repeated
/// invocations on equal inputs give equal colors and invocations on
/// distinct pixels are independent.
pub trait Shader: Sized {
    /// Well-formedness of the shader's own configuration.
    spec fn wf(&self) -> bool;

    spec fn shade_s(&self, material: &Material, inputs: &ShaderIn) -> Fx4;

    fn shade(&self, material: &Material, inputs: &ShaderIn) -> (r: Fx4)
        requires
            self.wf(),
            material.wf(),
            inputs.wf(),
        ensures
            r == self.shade_s(material, inputs),
            fx4_ok(r),
    ;
}

/// The pass-through stage: the base-color factor, multiplied by the sampled
/// base-color texture where one is present, with full alpha.  A debugging
/// baseline beside the physically based stage.
///
/// An absent texture deliberately falls back to the factor alone rather
/// than to opaque black: absence of a texture short-circuits sampling and
/// is never an error, and a textureless solid-color material must pass its
/// color through (a red factor without a texture shades red).
pub struct BaseColorShader {
    pub sample_bilinear: bool,
}

impl Default for BaseColorShader {
    fn default() -> (r: BaseColorShader)
        ensures
            r.sample_bilinear == false,
    {
        BaseColorShader { sample_bilinear: false }
    }
}

/// The pass-through color as a spec function.
pub open spec fn base_color_s(shader: BaseColorShader, material: Material, inputs: ShaderIn) -> Fx4 {
    let f = material.base_color_factor;
    if material.base_color_texture is Some {
        let t = material.base_color_texture->Some_0.sample_pixel_s(
            inputs.tex_coord.x as int,
            inputs.tex_coord.y as int,
            shader.sample_bilinear,
        );
        Fx4 {
            x: fx_mul_s(f.x as int, t.x as int) as i64,
            y: fx_mul_s(f.y as int, t.y as int) as i64,
            z: fx_mul_s(f.z as int, t.z as int) as i64,
            w: FP,
        }
    } else {
        Fx4 { x: f.x, y: f.y, z: f.z, w: FP }
    }
}

impl Shader for BaseColorShader {
    open spec fn wf(&self) -> bool {
        true
    }

    open spec fn shade_s(&self, material: &Material, inputs: &ShaderIn) -> Fx4 {
        base_color_s(*self, *material, *inputs)
    }

    fn shade(&self, material: &Material, inputs: &ShaderIn) -> (r: Fx4) {
        let f = material.base_color_factor;
        match &material.base_color_texture {
            Some(tex) => {
                let t = tex.sample_pixel(
                    inputs.tex_coord.x,
                    inputs.tex_coord.y,
                    self.sample_bilinear,
                );
                Fx4 {
                    x: fx_mul(f.x, t.x),
                    y: fx_mul(f.y, t.y),
                    z: fx_mul(f.z, t.z),
                    w: FP,
                }
            },
            None => Fx4 { x: f.x, y: f.y, z: f.z, w: FP },
        }
    }
}

} // verus!
