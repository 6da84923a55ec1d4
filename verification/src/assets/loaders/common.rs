//! What a model loader hands back: mesh geometry split into submeshes, and materials.

use vstd::prelude::*;
use crate::gpu::vertex3::Vec3Bits;

verus! {

/// The geometry read from one model file.
pub struct MeshLoadInfo {
    /// The mesh's vertices.
    pub vertices: Vec<Vec3Bits>,
    /// The mesh's vertex normals.
    pub normals: Vec<Vec3Bits>,
    /// The mesh's vertex indices.
    pub indices: Vec<u32>,
    /// The texture coordinates. Note that these may also be used on 3D textures.
    pub uvs: Vec<Vec3Bits>,
    /// The contiguous ranges of `indices` that should be drawn with a single material, in the
    /// order they were encountered in the source file.
    pub submeshes: Vec<Submesh>,
}

/// A contiguous range within a [`MeshLoadInfo`]'s `indices`, along with the material it
/// should be drawn with. Ranges are local to a single loaded file.
#[derive(Debug, Clone, Copy)]
pub struct Submesh {
    /// The index of the material this submesh uses, as defined by the source file (e.g. a glTF
    /// material index). `None` if the file did not assign a material to this range.
    pub material_index: Option<usize>,
    /// The offset of this submesh's first index within `MeshLoadInfo::indices`.
    pub index_start: usize,
    /// The number of indices that make up this submesh.
    pub index_count: usize,
}

/// Contains all information required for the application to load a new material.
pub struct MaterialLoadInfo {
    /// The ID of this material
    pub name: String,
    /// The material uniforms. These should be defined on every imported material.
    pub uniforms: MaterialUniforms,
    /// The ID of the base color map, if any.
    pub base_color_map: Option<String>,
    /// The ID of the roughness map, if any. This is ignored for now.
    pub roughness_map: Option<String>,
    /// The ID of the normal map, if any. This is ignored for now.
    pub normal_map: Option<String>,
}

/// The material uniforms, each `f32` held by its bit pattern. These scale the material's
/// texture maps, if any.
#[derive(Debug, Clone, Copy)]
pub struct MaterialUniforms {
    /// The base color, normalized RGBA.
    pub base_color: [u32; 4],
    /// The metalness factor, between 0 and 1.
    pub metalness_factor: u32,
    /// The roughness factor, between 0 and 1.
    pub roughness_factor: u32,
}

/// All information about a loaded texture.
pub struct TextureLoadInfo {}

impl MeshLoadInfo {
    /// A mesh with no geometry, to be filled primitive by primitive.
    pub fn empty() -> (m: Self)
        ensures
            m.vertices@.len() == 0,
            m.normals@.len() == 0,
            m.indices@.len() == 0,
            m.uvs@.len() == 0,
            m.submeshes@.len() == 0,
    {
        MeshLoadInfo {
            vertices: Vec::new(),
            normals: Vec::new(),
            indices: Vec::new(),
            uvs: Vec::new(),
            submeshes: Vec::new(),
        }
    }
}

} // verus!
