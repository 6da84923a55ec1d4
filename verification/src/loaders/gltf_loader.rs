//! The glTF mesh file loader's bookkeeping: how each primitive's geometry is appended.

use vstd::prelude::*;
use crate::assets::loaders::gltf_loader::{offset_indices, offsets_fit};
use crate::gpu::vertex3::Vec3Bits;
use crate::loaders::mesh::mesh_loader::MeshInfo;

verus! {

/// Loads meshes from glTF and glb files.
pub struct GltfLoader;

impl GltfLoader {
    /// Appends one primitive of a mesh node: its (already transformed) positions, normals and
    /// texture coordinates, and its indices shifted past the vertices already present.
    pub fn append_primitive(
        mesh: &mut MeshInfo,
        positions: Vec<Vec3Bits>,
        normals: Vec<Vec3Bits>,
        uvs: Vec<Vec3Bits>,
        indices: Vec<u32>,
    )
        requires
            offsets_fit(indices@, old(mesh).vertices@.len() as u32),
        ensures
            final(mesh).vertices@ == old(mesh).vertices@ + positions@,
            final(mesh).normals@ == old(mesh).normals@ + normals@,
            final(mesh).uvs@ == old(mesh).uvs@ + uvs@,
            final(mesh).indices@ == old(mesh).indices@ + offset_indices(indices@, old(mesh).vertices@.len() as u32),
    {
        let vert_offset = mesh.vertices.len() as u32;
        let mut positions = positions;
        let mut normals = normals;
        let mut uvs = uvs;
        mesh.vertices.append(&mut positions);
        mesh.normals.append(&mut normals);
        mesh.uvs.append(&mut uvs);
        let ghost before = mesh.indices@;
        let ghost verts = mesh.vertices@;
        let ghost norms = mesh.normals@;
        let ghost coords = mesh.uvs@;
        let mut i: usize = 0;
        while i < indices.len()
            invariant
                i <= indices@.len(),
                mesh.vertices@ == verts,
                mesh.normals@ == norms,
                mesh.uvs@ == coords,
                offsets_fit(indices@, vert_offset),
                mesh.indices@ == before + offset_indices(indices@, vert_offset).take(i as int),
            decreases indices@.len() - i,
        {
            let shifted = indices[i] + vert_offset;
            mesh.indices.push(shifted);
            i = i + 1;
            assert(offset_indices(indices@, vert_offset).take(i as int)
                =~= offset_indices(indices@, vert_offset).take(i - 1).push(shifted));
        }
        assert(offset_indices(indices@, vert_offset).take(i as int) =~= offset_indices(indices@, vert_offset));
    }
}

} // verus!
