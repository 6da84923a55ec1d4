//! The registry that places every loaded mesh in shared vertex and index buffers.

use vstd::prelude::*;
use crate::assets::loaders::common::{MeshLoadInfo, Submesh};
use crate::common::string_map::StringMap;
use crate::gpu::vertex3::{Vec3Bits, Vertex3};
use crate::naming::{material_id, material_id_spec};

verus! {

/// The location of one mesh's data in the registry's shared buffers. Handles are entries of
/// a [`MeshRegistry`]; they are never edited or created by hand.
#[derive(Debug)]
pub struct MeshHandle {
    pub id: String,
    pub vertex_loc: usize,
    pub vertex_count: usize,
    pub index_loc: usize,
    pub index_count: usize,
    /// The submeshes that make up this mesh, in the order they should be drawn. Each one
    /// covers a contiguous range of the registry's shared index buffer.
    pub submeshes: Vec<SubmeshHandle>,
}

/// A submesh's location within a [`MeshRegistry`]'s shared index buffer, along with the id
/// of the material it was assigned in its source file.
#[derive(Debug, Clone)]
pub struct SubmeshHandle {
    /// The id this submesh's material is looked up under, `"{mesh_id}_mat_{index}"`, if the
    /// source file assigned one.
    pub material_id: Option<String>,
    /// Absolute offset into the registry's shared index buffer.
    pub index_loc: usize,
    pub index_count: usize,
}

/// The vertices that zipping positions, normals and texture coordinates gives: as many as
/// the shortest of the three.
pub open spec fn zip_vertices(p: Seq<Vec3Bits>, n: Seq<Vec3Bits>, uv: Seq<Vec3Bits>) -> Seq<Vertex3> {
    let len = if p.len() <= n.len() && p.len() <= uv.len() {
        p.len()
    } else if n.len() <= uv.len() {
        n.len()
    } else {
        uv.len()
    };
    Seq::new(len, |i: int| Vertex3 { position: p[i], normal: n[i], uv: uv[i] })
}

/// Zipping gives one vertex per index up to the shortest of the three attribute lists, and
/// vertex `i` is built from position `i`, normal `i` and texture coordinate `i`.
pub proof fn lemma_zip_vertices_pointwise(p: Seq<Vec3Bits>, n: Seq<Vec3Bits>, uv: Seq<Vec3Bits>)
    ensures
        zip_vertices(p, n, uv).len() <= p.len(),
        zip_vertices(p, n, uv).len() <= n.len(),
        zip_vertices(p, n, uv).len() <= uv.len(),
        zip_vertices(p, n, uv).len() == p.len() || zip_vertices(p, n, uv).len() == n.len()
            || zip_vertices(p, n, uv).len() == uv.len(),
        forall|i: int| 0 <= i < zip_vertices(p, n, uv).len() ==> {
            &&& (#[trigger] zip_vertices(p, n, uv)[i]).position == p[i]
            &&& zip_vertices(p, n, uv)[i].normal == n[i]
            &&& zip_vertices(p, n, uv)[i].uv == uv[i]
        },
{
}

/// `h` is where submesh `s` of mesh `mesh_id` lands when the mesh's indices start at
/// `index_loc` in the shared buffer.
pub open spec fn submesh_handle_for(mesh_id: Seq<char>, index_loc: int, s: Submesh, h: SubmeshHandle) -> bool {
    &&& h.index_loc == index_loc + s.index_start
    &&& h.index_count == s.index_count
    &&& match s.material_index {
        Some(m) => h.material_id matches Some(id) && id@ == material_id_spec(mesh_id, m as nat),
        None => h.material_id is None,
    }
}

/// The submesh handles of a mesh whose indices start at `index_loc`, one per submesh.
pub open spec fn submesh_handles_for(mesh_id: Seq<char>, index_loc: int, subs: Seq<Submesh>, hs: Seq<SubmeshHandle>) -> bool {
    &&& hs.len() == subs.len()
    &&& forall|i: int| 0 <= i < subs.len() ==> #[trigger] submesh_handle_for(mesh_id, index_loc, subs[i], hs[i])
}

/// The handle that appending a mesh with `info` gives when the shared buffers held
/// `vertex_loc` vertices and `index_loc` indices.
pub open spec fn handle_for(mesh_id: Seq<char>, vertex_loc: int, index_loc: int, info: MeshLoadInfo, h: MeshHandle) -> bool {
    &&& h.id@ == mesh_id
    &&& h.vertex_loc == vertex_loc
    &&& h.vertex_count == zip_vertices(info.vertices@, info.normals@, info.uvs@).len()
    &&& h.index_loc == index_loc
    &&& h.index_count == info.indices@.len()
    &&& submesh_handles_for(mesh_id, index_loc, info.submeshes@, h.submeshes@)
}

/// Every submesh of a loaded mesh covers indices the mesh has.
pub open spec fn info_submeshes_in_range(info: MeshLoadInfo) -> bool {
    forall|i: int| 0 <= i < info.submeshes@.len() ==>
        #[trigger] info.submeshes@[i].index_start + info.submeshes@[i].index_count <= info.indices@.len()
}

/// Every submesh range of a handle lies inside the handle's own index range.
pub open spec fn handle_submeshes_in_range(h: MeshHandle) -> bool {
    forall|i: int| 0 <= i < h.submeshes@.len() ==> {
        &&& h.index_loc <= #[trigger] h.submeshes@[i].index_loc
        &&& h.submeshes@[i].index_loc + h.submeshes@[i].index_count <= h.index_loc + h.index_count
    }
}

/// No submesh offset overflows once the mesh's indices start at `index_loc`.
pub open spec fn submesh_offsets_fit(index_loc: int, subs: Seq<Submesh>) -> bool {
    forall|i: int| 0 <= i < subs.len() ==> index_loc + #[trigger] subs[i].index_start <= usize::MAX
}

/// A registered mesh's data reads back from where its handle points: after registering
/// `info` under `id`, the shared vertex buffer holds the mesh's vertices from `vertex_loc`
/// on and the index buffer its indices from `index_loc` on; each submesh handle that lies
/// within the mesh's indices reads that submesh's indices; and the data already in the
/// buffers is untouched.
pub proof fn lemma_registered_mesh_readable(before: MeshRegistry, after: MeshRegistry, id: Seq<char>, info: MeshLoadInfo)
    requires
        after.handles().dom().contains(id),
        handle_for(id, before.vertices().len() as int, before.indices().len() as int, info, after.handles()[id]),
        after.vertices() == before.vertices() + zip_vertices(info.vertices@, info.normals@, info.uvs@),
        after.indices() == before.indices() + info.indices@,
    ensures
        ({
            let h = after.handles()[id];
            let zipped = zip_vertices(info.vertices@, info.normals@, info.uvs@);
            &&& forall|j: int| 0 <= j < zipped.len() ==> after.vertices()[h.vertex_loc + j] == #[trigger] zipped[j]
            &&& forall|j: int| 0 <= j < h.index_count ==> after.indices()[h.index_loc + j] == #[trigger] info.indices@[j]
            &&& forall|s: int, j: int|
                0 <= s < info.submeshes@.len()
                && info.submeshes@[s].index_start + info.submeshes@[s].index_count <= info.indices@.len()
                && 0 <= j < info.submeshes@[s].index_count
                ==> after.indices()[#[trigger] h.submeshes@[s].index_loc + j]
                    == #[trigger] info.indices@[info.submeshes@[s].index_start + j]
            &&& forall|j: int| 0 <= j < before.vertices().len() ==> #[trigger] after.vertices()[j] == before.vertices()[j]
            &&& forall|j: int| 0 <= j < before.indices().len() ==> #[trigger] after.indices()[j] == before.indices()[j]
        }),
{
    let h = after.handles()[id];
    assert forall|s: int, j: int|
        0 <= s < info.submeshes@.len()
        && info.submeshes@[s].index_start + info.submeshes@[s].index_count <= info.indices@.len()
        && 0 <= j < info.submeshes@[s].index_count
        implies after.indices()[#[trigger] h.submeshes@[s].index_loc + j]
            == #[trigger] info.indices@[info.submeshes@[s].index_start + j] by {
        assert(submesh_handle_for(id, before.indices().len() as int, info.submeshes@[s], h.submeshes@[s]));
    }
}

/// # Mesh Registry
/// The handles of every registered mesh, keyed by a unique ID, and the vertex and index data
/// the rendering pipeline's buffers are built from.
pub struct MeshRegistry {
    /// The map of mesh IDs and their display handles.
    meshes: StringMap<MeshHandle>,
    /// The vertex data of every registered mesh, back to back.
    raw_vertices: Vec<Vertex3>,
    /// The index data of every registered mesh, back to back.
    raw_indices: Vec<u32>,
}

impl MeshRegistry {
    /// Every handle is stored under its own id; its vertex range lies wholly inside the
    /// vertex buffer and its index range wholly inside the index buffer.
    #[verifier::type_invariant]
    spec fn inv(self) -> bool {
        forall|k: Seq<char>| #[trigger] self.meshes@.dom().contains(k) ==> {
            &&& self.meshes@[k].id@ == k
            &&& self.meshes@[k].vertex_loc + self.meshes@[k].vertex_count <= self.raw_vertices@.len()
            &&& self.meshes@[k].index_loc + self.meshes@[k].index_count <= self.raw_indices@.len()
        }
    }

    /// Every registered handle's submesh ranges lie inside its own index range.
    pub open spec fn submeshes_in_range(&self) -> bool {
        forall|k: Seq<char>| #[trigger] self.handles().dom().contains(k) ==>
            handle_submeshes_in_range(self.handles()[k])
    }

    /// The registered handles, by id.
    pub closed spec fn handles(&self) -> Map<Seq<char>, MeshHandle> {
        self.meshes@
    }

    /// The shared vertex data.
    pub closed spec fn vertices(&self) -> Seq<Vertex3> {
        self.raw_vertices@
    }

    /// The shared index data.
    pub closed spec fn indices(&self) -> Seq<u32> {
        self.raw_indices@
    }

    /// Creates a new, blank `MeshRegistry`.
    pub fn new() -> (r: Self)
        ensures
            r.handles() == Map::<Seq<char>, MeshHandle>::empty(),
            r.submeshes_in_range(),
            r.vertices().len() == 0,
            r.indices().len() == 0,
    {
        Self { meshes: StringMap::new(), raw_vertices: Vec::new(), raw_indices: Vec::new() }
    }

    /// Appends a single already-loaded mesh to `verts`/`indices`, returning a [`MeshHandle`]
    /// describing where its data landed. A submesh's material id is derived from `mesh_id`
    /// and the submesh's material index alone, whether or not a material is registered
    /// under that id yet.
    fn append_mesh(
        mesh_id: &str,
        info: MeshLoadInfo,
        verts: &mut Vec<Vertex3>,
        indices: &mut Vec<u32>,
    ) -> (h: MeshHandle)
        requires
            submesh_offsets_fit(old(indices)@.len() as int, info.submeshes@),
        ensures
            handle_for(mesh_id@, old(verts)@.len() as int, old(indices)@.len() as int, info, h),
            final(verts)@ == old(verts)@ + zip_vertices(info.vertices@, info.normals@, info.uvs@),
            final(indices)@ == old(indices)@ + info.indices@,
    {
        let vertex_loc = verts.len();
        let ghost zipped = zip_vertices(info.vertices@, info.normals@, info.uvs@);
        let n = if info.vertices.len() <= info.normals.len() && info.vertices.len() <= info.uvs.len() {
            info.vertices.len()
        } else if info.normals.len() <= info.uvs.len() {
            info.normals.len()
        } else {
            info.uvs.len()
        };
        let mut i: usize = 0;
        while i < n
            invariant
                n == zipped.len(),
                i <= n,
                n <= info.vertices@.len(),
                n <= info.normals@.len(),
                n <= info.uvs@.len(),
                zipped == zip_vertices(info.vertices@, info.normals@, info.uvs@),
                verts@ == old(verts)@ + zipped.take(i as int),
            decreases n - i,
        {
            verts.push(Vertex3::new(info.vertices[i], info.normals[i], info.uvs[i]));
            i = i + 1;
            assert(zipped.take(i as int) =~= zipped.take(i - 1).push(zipped[i - 1]));
        }
        assert(zipped.take(n as int) =~= zipped);
        let vertex_count = n;

        let index_loc = indices.len();
        let index_count = info.indices.len();
        let mut new_indices = info.indices;
        indices.append(&mut new_indices);

        let subs = info.submeshes;
        let mut submeshes: Vec<SubmeshHandle> = Vec::new();
        let mut j: usize = 0;
        while j < subs.len()
            invariant
                j <= subs@.len(),
                submesh_offsets_fit(index_loc as int, subs@),
                submeshes@.len() == j,
                forall|k: int| 0 <= k < j ==> #[trigger] submesh_handle_for(mesh_id@, index_loc as int, subs@[k], submeshes@[k]),
            decreases subs@.len() - j,
        {
            let s = subs[j];
            let material = match s.material_index {
                Some(m) => Some(material_id(mesh_id, m)),
                None => None,
            };
            submeshes.push(SubmeshHandle {
                material_id: material,
                index_loc: index_loc + s.index_start,
                index_count: s.index_count,
            });
            assert(submesh_handle_for(mesh_id@, index_loc as int, subs@[j as int], submeshes@[j as int]));
            j = j + 1;
        }

        MeshHandle {
            id: String::from_str(mesh_id),
            vertex_loc,
            vertex_count,
            index_loc,
            index_count,
            submeshes,
        }
    }

    /// Registers a single mesh: appends its data to the shared buffers and files its handle
    /// under `mesh_id`, replacing any earlier handle with that id (whose data stays in the
    /// buffers). The GPU buffers are then rebuilt from [`Self::raw_vertices`] and
    /// [`Self::raw_indices`].
    pub fn register_mesh(&mut self, mesh_id: String, info: MeshLoadInfo)
        requires
            submesh_offsets_fit(old(self).indices().len() as int, info.submeshes@),
        ensures
            final(self).handles().dom().contains(mesh_id@),
            final(self).handles() == old(self).handles().insert(mesh_id@, final(self).handles()[mesh_id@]),
            handle_for(mesh_id@, old(self).vertices().len() as int, old(self).indices().len() as int, info,
                final(self).handles()[mesh_id@]),
            final(self).vertices() == old(self).vertices() + zip_vertices(info.vertices@, info.normals@, info.uvs@),
            final(self).indices() == old(self).indices() + info.indices@,
            info_submeshes_in_range(info) ==> handle_submeshes_in_range(final(self).handles()[mesh_id@]),
            final(self).handles()[mesh_id@].vertex_count <= info.vertices@.len(),
            final(self).handles()[mesh_id@].vertex_count <= info.normals@.len(),
            final(self).handles()[mesh_id@].vertex_count <= info.uvs@.len(),
            final(self).handles()[mesh_id@].vertex_count == info.vertices@.len()
                || final(self).handles()[mesh_id@].vertex_count == info.normals@.len()
                || final(self).handles()[mesh_id@].vertex_count == info.uvs@.len(),
            final(self).vertices().len() == old(self).vertices().len() + final(self).handles()[mesh_id@].vertex_count,
            forall|j: int| 0 <= j < final(self).handles()[mesh_id@].vertex_count ==> {
                &&& final(self).vertices()[old(self).vertices().len() + j].position == #[trigger] info.vertices@[j]
                &&& final(self).vertices()[old(self).vertices().len() + j].normal == info.normals@[j]
                &&& final(self).vertices()[old(self).vertices().len() + j].uv == info.uvs@[j]
            },
            old(self).submeshes_in_range() && info_submeshes_in_range(info) ==> final(self).submeshes_in_range(),
    {
        proof {
            use_type_invariant(&*self);
        }
        let mut this = MeshRegistry::new();
        std::mem::swap(&mut this, self);
        proof {
            use_type_invariant(&this);
        }
        let MeshRegistry { meshes, raw_vertices, raw_indices } = this;
        let mut meshes = meshes;
        let mut raw_vertices = raw_vertices;
        let mut raw_indices = raw_indices;
        let ghost old_meshes = meshes@;
        let ghost old_vlen = raw_vertices@.len();
        let ghost old_ilen = raw_indices@.len();
        let handle = Self::append_mesh(mesh_id.as_str(), info, &mut raw_vertices, &mut raw_indices);
        let ghost h = handle;
        meshes.insert(mesh_id, handle);
        assert forall|k: Seq<char>| #[trigger] meshes@.dom().contains(k) implies {
            &&& meshes@[k].id@ == k
            &&& meshes@[k].vertex_loc + meshes@[k].vertex_count <= raw_vertices@.len()
            &&& meshes@[k].index_loc + meshes@[k].index_count <= raw_indices@.len()
        } by {
            if k != h.id@ {
                assert(old_meshes.dom().contains(k));
            }
        }
        *self = MeshRegistry { meshes, raw_vertices, raw_indices };
        proof {
            lemma_zip_vertices_pointwise(info.vertices@, info.normals@, info.uvs@);
            let zipped = zip_vertices(info.vertices@, info.normals@, info.uvs@);
            assert forall|j: int| 0 <= j < h.vertex_count implies {
                &&& self.raw_vertices@[old_vlen + j].position == #[trigger] info.vertices@[j]
                &&& self.raw_vertices@[old_vlen + j].normal == info.normals@[j]
                &&& self.raw_vertices@[old_vlen + j].uv == info.uvs@[j]
            } by {
                assert(self.raw_vertices@[old_vlen + j] == zipped[j]);
            }
            if info_submeshes_in_range(info) {
                assert forall|i: int| 0 <= i < h.submeshes@.len() implies {
                    &&& h.index_loc <= #[trigger] h.submeshes@[i].index_loc
                    &&& h.submeshes@[i].index_loc + h.submeshes@[i].index_count <= h.index_loc + h.index_count
                } by {
                    assert(submesh_handle_for(mesh_id@, old_ilen as int, info.submeshes@[i], h.submeshes@[i]));
                    assert(info.submeshes@[i].index_start + info.submeshes@[i].index_count <= info.indices@.len());
                }
                if old(self).submeshes_in_range() {
                    assert forall|k: Seq<char>| #[trigger] self.handles().dom().contains(k) implies
                        handle_submeshes_in_range(self.handles()[k]) by {
                        if k != mesh_id@ {
                            assert(old(self).handles().dom().contains(k));
                        }
                    }
                }
            }
        }
    }

    /// Attempts to find a [`MeshHandle`] with the given ID, returning `None` if it's not found.
    pub fn get(&self, uuid: &String) -> (r: Option<&MeshHandle>)
        ensures
            match r {
                Some(h) => self.handles().dom().contains(uuid@) && *h == self.handles()[uuid@]
                    && h.id@ == uuid@
                    && h.vertex_loc + h.vertex_count <= self.vertices().len()
                    && h.index_loc + h.index_count <= self.indices().len(),
                None => !self.handles().dom().contains(uuid@),
            },
    {
        proof {
            use_type_invariant(self);
        }
        self.meshes.get(uuid)
    }

    /// Returns a boolean indicating whether the requested [`MeshHandle`] exists.
    pub fn has_mesh(&self, uuid: &String) -> (b: bool)
        ensures
            b == self.handles().dom().contains(uuid@),
    {
        self.get(uuid).is_some()
    }

    /// Every registered handle, keyed by ID.
    pub fn meshes(&self) -> (m: &StringMap<MeshHandle>)
        ensures
            m@ == self.handles(),
    {
        &self.meshes
    }

    /// The vertex data the shared vertex buffer is built from.
    pub fn raw_vertices(&self) -> (v: &Vec<Vertex3>)
        ensures
            v@ == self.vertices(),
    {
        &self.raw_vertices
    }

    /// The index data the shared index buffer is built from.
    pub fn raw_indices(&self) -> (v: &Vec<u32>)
        ensures
            v@ == self.indices(),
    {
        &self.raw_indices
    }
}

} // verus!
