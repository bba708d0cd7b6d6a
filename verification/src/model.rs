//! Mesh, vertex and material data, immutable once built.

use vstd::prelude::*;
use crate::fx::{fx_ok, FP};
use crate::geom::{Fx2, Fx3, Fx4, fx2_ok, fx3_ok, fx4_ok};
use crate::image::Image;

verus! {

/// A factor in the closed unit interval at fixed-point scale.
pub open spec fn unit_ok(v: int) -> bool {
    0 <= v <= FP as int
}

/// Settings understood by the image import layer.
#[derive(Clone, Copy, PartialEq, Eq, Structural)]
pub enum ImageImportSettings {
    FlipVertical,
}

#[derive(Clone)]
pub struct Vertex {
    pub position: Fx3,
    pub normal: Fx3,
    pub tangent: Fx4,
    pub tex_coord: Fx2,
    pub tex_coord_1: Fx2,
    pub color: Fx4,
}

impl Vertex {
    pub open spec fn wf(self) -> bool {
        &&& fx3_ok(self.position)
        &&& fx3_ok(self.normal)
        &&& fx4_ok(self.tangent)
        &&& fx2_ok(self.tex_coord)
        &&& fx2_ok(self.tex_coord_1)
        &&& fx4_ok(self.color)
    }

    pub open spec fn default_s() -> Vertex {
        Vertex {
            position: Fx3::zero_s(),
            normal: Fx3::zero_s(),
            tangent: Fx4::zero_s(),
            tex_coord: Fx2::zero_s(),
            tex_coord_1: Fx2::zero_s(),
            color: Fx4::zero_s(),
        }
    }
}

impl Default for Vertex {
    fn default() -> (r: Vertex)
        ensures
            r == Vertex::default_s(),
            r.wf(),
    {
        Vertex {
            position: Fx3::zero(),
            normal: Fx3::zero(),
            tangent: Fx4::zero(),
            tex_coord: Fx2::zero(),
            tex_coord_1: Fx2::zero(),
            color: Fx4::zero(),
        }
    }
}

/// Scalar factors and optional textures; an absent texture falls back to the
/// scalar factor, it is never an error.
#[derive(Clone)]
pub struct Material {
    pub name: String,
    pub index: Option<usize>,
    pub base_color_factor: Fx4,
    pub base_color_texture: Option<Image>,
    pub normal_scale: i64,
    pub normal_texture: Option<Image>,
    pub metallic_factor: i64,
    pub roughness_factor: i64,
    pub metallic_roughness_texture: Option<Image>,
    pub occlusion_strength: i64,
    pub occlusion_texture: Option<Image>,
    pub emissive_factor: Fx3,
    pub emissive_texture: Option<Image>,
}

impl Material {
    pub open spec fn wf(self) -> bool {
        &&& unit_ok(self.base_color_factor.x as int)
        &&& unit_ok(self.base_color_factor.y as int)
        &&& unit_ok(self.base_color_factor.z as int)
        &&& unit_ok(self.base_color_factor.w as int)
        &&& fx_ok(self.normal_scale as int)
        &&& unit_ok(self.metallic_factor as int)
        &&& unit_ok(self.roughness_factor as int)
        &&& unit_ok(self.occlusion_strength as int)
        &&& unit_ok(self.emissive_factor.x as int)
        &&& unit_ok(self.emissive_factor.y as int)
        &&& unit_ok(self.emissive_factor.z as int)
        &&& (self.base_color_texture matches Some(t) ==> t.wf())
        &&& (self.normal_texture matches Some(t) ==> t.wf())
        &&& (self.metallic_roughness_texture matches Some(t) ==> t.wf())
        &&& (self.occlusion_texture matches Some(t) ==> t.wf())
        &&& (self.emissive_texture matches Some(t) ==> t.wf())
    }
}

impl Default for Material {
    /// A white opaque material with no textures, full roughness and no
    /// metallic response.
    fn default() -> (r: Material)
        ensures
            r.wf(),
            r.base_color_factor == (Fx4 { x: FP, y: FP, z: FP, w: FP }),
            r.base_color_texture is None,
            r.normal_scale == FP,
            r.normal_texture is None,
            r.metallic_factor == 0,
            r.roughness_factor == FP,
            r.metallic_roughness_texture is None,
            r.occlusion_strength == FP,
            r.occlusion_texture is None,
            r.emissive_factor == Fx3::zero_s(),
            r.emissive_texture is None,
            r.index is None,
    {
        Material {
            name: String::new(),
            index: None,
            base_color_factor: Fx4::new(FP, FP, FP, FP),
            base_color_texture: None,
            normal_scale: FP,
            normal_texture: None,
            metallic_factor: 0,
            roughness_factor: FP,
            metallic_roughness_texture: None,
            occlusion_strength: FP,
            occlusion_texture: None,
            emissive_factor: Fx3::zero(),
            emissive_texture: None,
        }
    }
}

/// A triangle list with optional indices, axis-aligned bounds and the index
/// of its material.
#[derive(Clone)]
pub struct Mesh {
    pub vertices: Vec<Vertex>,
    pub indices: Vec<u32>,
    pub min: Fx3,
    pub max: Fx3,
    pub material_idx: usize,
}

impl Mesh {
    pub open spec fn wf(self) -> bool {
        &&& forall|i: int| 0 <= i < self.vertices@.len() ==> self.vertices@[i].wf()
        &&& forall|i: int|
            0 <= i < self.indices@.len() ==> (self.indices@[i] as int) < self.vertices@.len()
    }
}

#[derive(Clone)]
pub struct Model {
    pub meshes: Vec<Mesh>,
    pub materials: Vec<Material>,
}

} // verus!
