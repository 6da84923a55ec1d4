//! The Wavefront OBJ model loader's assembly of a mesh from a parsed file.

use vstd::prelude::*;
use crate::assets::loaders::common::{MeshLoadInfo, Submesh};
use crate::gpu::vertex3::Vec3Bits;

verus! {

/// Loads meshes from Wavefront `.obj` files.
pub struct ObjLoader;

/// The position indices of a list of triangles, three per triangle in order, each
/// truncated to `u32`.
pub open spec fn flatten_triangles(ts: Seq<[usize; 3]>) -> Seq<u32>
    decreases ts.len(),
{
    if ts.len() == 0 {
        Seq::empty()
    } else {
        let t = ts.last();
        flatten_triangles(ts.drop_last()) + seq![t[0] as u32, t[1] as u32, t[2] as u32]
    }
}

/// Flattens triangles' position indices into an index list.
pub fn triangle_indices(triangles: &Vec<[usize; 3]>) -> (r: Vec<u32>)
    ensures
        r@ == flatten_triangles(triangles@),
{
    let mut out: Vec<u32> = Vec::new();
    let mut i: usize = 0;
    while i < triangles.len()
        invariant
            i <= triangles@.len(),
            out@ == flatten_triangles(triangles@.take(i as int)),
        decreases triangles@.len() - i,
    {
        let t = triangles[i];
        out.push(t[0] as u32);
        out.push(t[1] as u32);
        out.push(t[2] as u32);
        assert(triangles@.take(i + 1).drop_last() =~= triangles@.take(i as int));
        i = i + 1;
    }
    assert(triangles@.take(i as int) =~= triangles@);
    out
}

impl ObjLoader {
    /// Assembles a mesh from a parsed OBJ file's positions, normals, texture coordinates and
    /// triangles. Material groups aren't read yet, so the whole mesh is one submesh with no
    /// assigned material.
    pub fn mesh_from_obj(
        &self,
        positions: Vec<Vec3Bits>,
        normals: Vec<Vec3Bits>,
        uvs: Vec<Vec3Bits>,
        triangles: &Vec<[usize; 3]>,
    ) -> (m: MeshLoadInfo)
        ensures
            m.vertices@ == positions@,
            m.normals@ == normals@,
            m.uvs@ == uvs@,
            m.indices@ == flatten_triangles(triangles@),
            m.submeshes@ == seq![Submesh { material_index: None, index_start: 0, index_count: m.indices@.len() as usize }],
    {
        let index_list = triangle_indices(triangles);
        let count = index_list.len();
        let mut submeshes: Vec<Submesh> = Vec::new();
        submeshes.push(Submesh { material_index: None, index_start: 0, index_count: count });
        MeshLoadInfo { vertices: positions, normals, indices: index_list, uvs, submeshes }
    }
}

} // verus!
