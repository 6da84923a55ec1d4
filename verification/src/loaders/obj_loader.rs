//! The Wavefront OBJ mesh file loader's assembly of a mesh from a parsed file.

use vstd::prelude::*;
use crate::assets::loaders::obj_loader::{flatten_triangles, triangle_indices};
use crate::gpu::vertex3::Vec3Bits;
use crate::loaders::mesh::mesh_loader::MeshInfo;

verus! {

/// Loads meshes from Wavefront `.obj` files.
pub struct ObjLoader;

impl ObjLoader {
    /// Assembles a mesh from a parsed OBJ file's positions, normals, texture coordinates and
    /// triangles.
    pub fn mesh_from_obj(
        &self,
        positions: Vec<Vec3Bits>,
        normals: Vec<Vec3Bits>,
        uvs: Vec<Vec3Bits>,
        triangles: &Vec<[usize; 3]>,
    ) -> (m: MeshInfo)
        ensures
            m.vertices@ == positions@,
            m.normals@ == normals@,
            m.uvs@ == uvs@,
            m.indices@ == flatten_triangles(triangles@),
    {
        let index_list = triangle_indices(triangles);
        MeshInfo { vertices: positions, normals, indices: index_list, uvs }
    }
}

} // verus!
