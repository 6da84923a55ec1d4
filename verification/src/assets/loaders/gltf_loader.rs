//! The glTF model loader's bookkeeping: how each primitive's geometry is appended to the
//! mesh being built, and how materials and their textures are named.

use vstd::prelude::*;
use crate::assets::loaders::common::{MaterialLoadInfo, MaterialUniforms, MeshLoadInfo, Submesh};
use crate::gpu::vertex3::Vec3Bits;
use crate::naming::{default_material_name, default_material_name_spec, embedded_image_id,
    embedded_image_id_spec, opt_string_view};

verus! {

/// Loads models from glTF and glb files.
pub struct GltfLoader;

/// Where a texture's image comes from: a URI for an external image, or a view of the file's
/// own buffers (as in a `.glb`).
pub struct TextureSource {
    /// The image's URI, if it is external.
    pub uri: Option<String>,
    /// The image's index in the file.
    pub image_index: usize,
}

/// The plain values of one glTF material that loading it reads.
pub struct GltfMaterialDesc {
    /// The material's name, if the file gives one.
    pub name: Option<String>,
    /// The base color factor, metallic factor and roughness factor.
    pub uniforms: MaterialUniforms,
    /// The source of the base color texture, if any.
    pub base_color_texture: Option<TextureSource>,
    /// The source of the metallic-roughness texture, if any.
    pub metallic_roughness_texture: Option<TextureSource>,
    /// The source of the normal texture, if any.
    pub normal_texture: Option<TextureSource>,
}

/// The stable identifier of a texture's image: its URI if external, else
/// `"embedded_image_{index}"`.
pub open spec fn texture_id_spec(src: TextureSource) -> Seq<char> {
    match src.uri {
        Some(u) => u@,
        None => embedded_image_id_spec(src.image_index as nat),
    }
}

/// The texture id of an optional texture.
pub open spec fn opt_texture_id_spec(src: Option<TextureSource>) -> Option<Seq<char>> {
    match src {
        Some(s) => Some(texture_id_spec(s)),
        None => None,
    }
}

/// `info` is what loading material `index` described by `desc` gives.
pub open spec fn material_info_for(index: nat, desc: GltfMaterialDesc, info: MaterialLoadInfo) -> bool {
    &&& info.name@ == match desc.name {
        Some(n) => n@,
        None => default_material_name_spec(index),
    }
    &&& info.uniforms == desc.uniforms
    &&& opt_string_view(info.base_color_map) == opt_texture_id_spec(desc.base_color_texture)
    &&& opt_string_view(info.roughness_map) == opt_texture_id_spec(desc.metallic_roughness_texture)
    &&& opt_string_view(info.normal_map) == opt_texture_id_spec(desc.normal_texture)
}

/// Indices of a primitive, shifted past the vertices already in the mesh.
pub open spec fn offset_indices(indices: Seq<u32>, offset: u32) -> Seq<u32> {
    Seq::new(indices.len(), |i: int| (indices[i] + offset) as u32)
}

/// No index of the primitive overflows once shifted by `offset`.
pub open spec fn offsets_fit(indices: Seq<u32>, offset: u32) -> bool {
    forall|i: int| 0 <= i < indices.len() ==> #[trigger] indices[i] + offset <= u32::MAX
}

/// A loaded material keeps the document's uniforms as they are: the base color factor in
/// its RGBA order, the metallic factor and the roughness factor.
pub proof fn lemma_material_info_keeps_uniforms(index: nat, desc: GltfMaterialDesc, info: MaterialLoadInfo)
    requires
        material_info_for(index, desc, info),
    ensures
        info.uniforms.base_color[0] == desc.uniforms.base_color[0],
        info.uniforms.base_color[1] == desc.uniforms.base_color[1],
        info.uniforms.base_color[2] == desc.uniforms.base_color[2],
        info.uniforms.base_color[3] == desc.uniforms.base_color[3],
        info.uniforms.base_color == desc.uniforms.base_color,
        info.uniforms.metalness_factor == desc.uniforms.metalness_factor,
        info.uniforms.roughness_factor == desc.uniforms.roughness_factor,
{
}

impl GltfLoader {
    /// Returns a stable identifier for a texture's image, meant to be resolved by a texture
    /// loader later. External images are identified by their URI; images embedded in the
    /// file itself (e.g. in a `.glb`) have no URI, so they're identified by their image index.
    pub fn texture_id(source: &TextureSource) -> (s: String)
        ensures
            s@ == texture_id_spec(*source),
    {
        match &source.uri {
            Some(u) => u.clone(),
            None => embedded_image_id(source.image_index),
        }
    }

    fn opt_texture_id(source: &Option<TextureSource>) -> (s: Option<String>)
        ensures
            opt_string_view(s) == opt_texture_id_spec(*source),
    {
        match source {
            Some(src) => Some(Self::texture_id(src)),
            None => None,
        }
    }

    /// Builds the loader's description of material `index`: its name (or
    /// `"material_{index}"` when the file gives none), its uniforms, and the ids of its base
    /// color, metallic-roughness and normal textures.
    pub fn material_info(index: usize, desc: GltfMaterialDesc) -> (info: MaterialLoadInfo)
        ensures
            material_info_for(index as nat, desc, info),
            info.uniforms.base_color == desc.uniforms.base_color,
            info.uniforms.metalness_factor == desc.uniforms.metalness_factor,
            info.uniforms.roughness_factor == desc.uniforms.roughness_factor,
            desc.name matches Some(n) ==> info.name@ == n@,
    {
        let base_color_map = Self::opt_texture_id(&desc.base_color_texture);
        let roughness_map = Self::opt_texture_id(&desc.metallic_roughness_texture);
        let normal_map = Self::opt_texture_id(&desc.normal_texture);
        let name = match desc.name {
            Some(n) => n,
            None => default_material_name(index),
        };
        MaterialLoadInfo { name, uniforms: desc.uniforms, base_color_map, roughness_map, normal_map }
    }

    /// Loads all materials of a document, given in document order. A material's position in
    /// the result is its glTF material index, the one mesh loading records for submeshes.
    pub fn load_materials(&self, materials: Vec<GltfMaterialDesc>) -> (r: Vec<MaterialLoadInfo>)
        ensures
            r@.len() == materials@.len(),
            forall|i: int| 0 <= i < r@.len() ==> #[trigger] material_info_for(i as nat, materials@[i], r@[i]),
            forall|i: int| 0 <= i < r@.len() ==> {
                &&& (#[trigger] r@[i]).uniforms.base_color == materials@[i].uniforms.base_color
                &&& r@[i].uniforms.metalness_factor == materials@[i].uniforms.metalness_factor
                &&& r@[i].uniforms.roughness_factor == materials@[i].uniforms.roughness_factor
            },
    {
        let mut out: Vec<MaterialLoadInfo> = Vec::new();
        let mut materials = materials;
        let ghost descs = materials@;
        let n = materials.len();
        let mut rest: Vec<GltfMaterialDesc> = Vec::new();
        // Take the materials out back to front, then build them front to back.
        while materials.len() > 0
            invariant
                materials@.len() + rest@.len() == n,
                descs.len() == n,
                forall|i: int| 0 <= i < materials@.len() ==> materials@[i] == descs[i],
                forall|j: int| 0 <= j < rest@.len() ==> rest@[j] == descs[n - 1 - j],
            decreases materials@.len(),
        {
            let d = materials.pop().unwrap();
            rest.push(d);
        }
        let mut index: usize = 0;
        while rest.len() > 0
            invariant
                index + rest@.len() == n,
                out@.len() == index,
                forall|j: int| 0 <= j < rest@.len() ==> rest@[j] == descs[n - 1 - j],
                forall|i: int| 0 <= i < index ==> #[trigger] material_info_for(i as nat, descs[i], out@[i]),
            decreases rest@.len(),
        {
            let d = rest.pop().unwrap();
            assert(d == descs[index as int]);
            out.push(Self::material_info(index, d));
            index = index + 1;
        }
        proof {
            assert forall|i: int| 0 <= i < out@.len() implies {
                &&& (#[trigger] out@[i]).uniforms.base_color == descs[i].uniforms.base_color
                &&& out@[i].uniforms.metalness_factor == descs[i].uniforms.metalness_factor
                &&& out@[i].uniforms.roughness_factor == descs[i].uniforms.roughness_factor
            } by {
                lemma_material_info_keeps_uniforms(i as nat, descs[i], out@[i]);
            }
        }
        out
    }

    /// Appends one primitive of a mesh node: its (already transformed) positions, normals and
    /// texture coordinates, its indices shifted past the vertices already present, and a
    /// submesh covering exactly the indices it added, drawn with the primitive's material.
    pub fn append_primitive(
        mesh: &mut MeshLoadInfo,
        positions: Vec<Vec3Bits>,
        normals: Vec<Vec3Bits>,
        uvs: Vec<Vec3Bits>,
        indices: Vec<u32>,
        material_index: Option<usize>,
    )
        requires
            offsets_fit(indices@, old(mesh).vertices@.len() as u32),
        ensures
            final(mesh).vertices@ == old(mesh).vertices@ + positions@,
            final(mesh).normals@ == old(mesh).normals@ + normals@,
            final(mesh).uvs@ == old(mesh).uvs@ + uvs@,
            final(mesh).indices@ == old(mesh).indices@ + offset_indices(indices@, old(mesh).vertices@.len() as u32),
            final(mesh).submeshes@ == old(mesh).submeshes@.push(Submesh {
                material_index,
                index_start: old(mesh).indices@.len() as usize,
                index_count: indices@.len() as usize,
            }),
    {
        let vert_offset = mesh.vertices.len() as u32;
        let index_start = mesh.indices.len();
        let mut positions = positions;
        let mut normals = normals;
        let mut uvs = uvs;
        mesh.vertices.append(&mut positions);
        mesh.normals.append(&mut normals);
        mesh.uvs.append(&mut uvs);
        let ghost before = mesh.indices@;
        let ghost verts = mesh.vertices@;
        let ghost norms = mesh.normals@;
        let ghost coords = mesh.uvs@;
        let ghost subs = mesh.submeshes@;
        let mut i: usize = 0;
        while i < indices.len()
            invariant
                i <= indices@.len(),
                mesh.vertices@ == verts,
                mesh.normals@ == norms,
                mesh.uvs@ == coords,
                mesh.submeshes@ == subs,
                offsets_fit(indices@, vert_offset),
                mesh.indices@ == before + offset_indices(indices@, vert_offset).take(i as int),
            decreases indices@.len() - i,
        {
            let shifted = indices[i] + vert_offset;
            mesh.indices.push(shifted);
            i = i + 1;
            assert(offset_indices(indices@, vert_offset).take(i as int)
                =~= offset_indices(indices@, vert_offset).take(i - 1).push(shifted));
        }
        assert(offset_indices(indices@, vert_offset).take(i as int) =~= offset_indices(indices@, vert_offset));
        let index_count = mesh.indices.len() - index_start;
        mesh.submeshes.push(Submesh { material_index, index_start, index_count });
    }
}

} // verus!
