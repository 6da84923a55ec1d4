//! The manager that keeps meshes and their materials consistent with each other.

use vstd::prelude::*;
use crate::assets::loaders::common::MaterialLoadInfo;
use crate::assets::loaders::model_loader::ModelLoadInfo;
use crate::common::material::{material_of, Material, MaterialRegistry};
use crate::common::mesh::{handle_for, submesh_offsets_fit, zip_vertices, MeshHandle, MeshRegistry};
use crate::common::string_map::StringMap;
use crate::common::texture::TextureRegistry;
use crate::naming::{decimal, lemma_decimal_injective, material_id, material_id_spec};

verus! {

/// A manager that controls all assets used for display: meshes, materials, and textures
/// (whose handle type `H` is the renderer's).
///
/// Callers go through `AssetManager` rather than reaching into a [`MeshRegistry`] or
/// [`MaterialRegistry`] directly: it registers a model's materials under the ids its
/// submeshes look them up by.
pub struct AssetManager<H> {
    mesh_registry: MeshRegistry,
    material_registry: MaterialRegistry,
    texture_registry: TextureRegistry<H>,
}

/// The materials after registering `ms`, in order, under `"{mesh_id}_mat_{index}"`.
pub open spec fn register_materials(
    m: Map<Seq<char>, Material>,
    mesh_id: Seq<char>,
    ms: Seq<MaterialLoadInfo>,
) -> Map<Seq<char>, Material>
    decreases ms.len(),
{
    if ms.len() == 0 {
        m
    } else {
        register_materials(m, mesh_id, ms.drop_last()).insert(
            material_id_spec(mesh_id, (ms.len() - 1) as nat),
            material_of(ms.last()),
        )
    }
}

/// Material ids of one mesh differ for different indices.
pub proof fn lemma_material_id_injective(mesh_id: Seq<char>, a: nat, b: nat)
    requires
        material_id_spec(mesh_id, a) == material_id_spec(mesh_id, b),
    ensures
        a == b,
{
    let p = mesh_id + "_mat_"@;
    let x = material_id_spec(mesh_id, a);
    assert(x.subrange(p.len() as int, x.len() as int) =~= decimal(a));
    let y = material_id_spec(mesh_id, b);
    assert(y.subrange(p.len() as int, y.len() as int) =~= decimal(b));
    lemma_decimal_injective(a, b);
}

/// After registering a model's materials, material `index` of the model is found under
/// `"{mesh_id}_mat_{index}"`.
pub proof fn lemma_registered_material(
    m: Map<Seq<char>, Material>,
    mesh_id: Seq<char>,
    ms: Seq<MaterialLoadInfo>,
    index: int,
)
    requires
        0 <= index < ms.len(),
    ensures
        register_materials(m, mesh_id, ms).dom().contains(material_id_spec(mesh_id, index as nat)),
        register_materials(m, mesh_id, ms)[material_id_spec(mesh_id, index as nat)] == material_of(ms[index]),
    decreases ms.len(),
{
    let last = (ms.len() - 1) as nat;
    if index < last {
        lemma_registered_material(m, mesh_id, ms.drop_last(), index);
        if material_id_spec(mesh_id, index as nat) == material_id_spec(mesh_id, last) {
            lemma_material_id_injective(mesh_id, index as nat, last);
        }
    }
}

/// Registering a model's materials leaves every other material as it was: an id that is
/// none of the model's `"{mesh_id}_mat_{index}"` ids is present afterwards exactly when it
/// was before, with the same material.
pub proof fn lemma_register_materials_keeps_others(
    m: Map<Seq<char>, Material>,
    mesh_id: Seq<char>,
    ms: Seq<MaterialLoadInfo>,
    k: Seq<char>,
)
    requires
        forall|i: int| 0 <= i < ms.len() ==> k != #[trigger] material_id_spec(mesh_id, i as nat),
    ensures
        register_materials(m, mesh_id, ms).dom().contains(k) == m.dom().contains(k),
        m.dom().contains(k) ==> register_materials(m, mesh_id, ms)[k] == m[k],
    decreases ms.len(),
{
    if ms.len() > 0 {
        assert forall|i: int| 0 <= i < ms.drop_last().len() implies k != #[trigger] material_id_spec(mesh_id, i as nat) by {
            assert(k != material_id_spec(mesh_id, i as nat));
        }
        lemma_register_materials_keeps_others(m, mesh_id, ms.drop_last(), k);
        assert(k != material_id_spec(mesh_id, (ms.len() - 1) as nat));
    }
}

/// A submesh that names a material the model brought is drawn with that material: after
/// registering a model, each submesh handle whose material index is within the model's
/// materials finds, under its `material_id`, the material at that index.
pub proof fn lemma_submesh_materials_registered(
    materials: Map<Seq<char>, Material>,
    mesh_id: Seq<char>,
    ms: Seq<MaterialLoadInfo>,
    material_index: nat,
)
    requires
        material_index < ms.len(),
    ensures
        register_materials(materials, mesh_id, ms).dom().contains(material_id_spec(mesh_id, material_index)),
        register_materials(materials, mesh_id, ms)[material_id_spec(mesh_id, material_index)]
            == material_of(ms[material_index as int]),
{
    lemma_registered_material(materials, mesh_id, ms, material_index as int);
}

impl<H> AssetManager<H> {
    /// The registered meshes' handles, by id.
    pub closed spec fn meshes_view(&self) -> Map<Seq<char>, MeshHandle> {
        self.mesh_registry.handles()
    }

    /// The registered materials, by id.
    pub closed spec fn materials(&self) -> Map<Seq<char>, Material> {
        self.material_registry.materials()
    }

    /// The registered textures, by id.
    pub closed spec fn textures(&self) -> Map<Seq<char>, H> {
        self.texture_registry.textures()
    }

    /// The mesh registry, whose data the shared GPU buffers are built from.
    pub closed spec fn mesh_registry_view(&self) -> MeshRegistry {
        self.mesh_registry
    }

    /// Creates a new `AssetManager` with empty registries.
    pub fn new() -> (a: Self)
        ensures
            a.meshes_view() == Map::<Seq<char>, MeshHandle>::empty(),
            a.materials() == Map::<Seq<char>, Material>::empty(),
            a.textures() == Map::<Seq<char>, H>::empty(),
            a.mesh_registry_view().vertices().len() == 0,
            a.mesh_registry_view().indices().len() == 0,
    {
        Self {
            mesh_registry: MeshRegistry::new(),
            material_registry: MaterialRegistry::new(),
            texture_registry: TextureRegistry::new(),
        }
    }

    /// Registers a loaded model: each of its materials under `"{mesh_id}_mat_{index}"`,
    /// `index` being its position in the model's material list (the id its submeshes look it
    /// up by), then its mesh under `mesh_id`. A model without materials registers none.
    pub fn register_model(&mut self, mesh_id: &String, model_info: ModelLoadInfo)
        requires
            model_info.mesh is Some,
            submesh_offsets_fit(old(self).mesh_registry_view().indices().len() as int,
                model_info.mesh->0.submeshes@),
        ensures
            final(self).textures() == old(self).textures(),
            forall|k: Seq<char>|
                (forall|i: int| 0 <= i < (match model_info.materials { Some(ms) => ms@.len() as int, None => 0int })
                    ==> k != #[trigger] material_id_spec(mesh_id@, i as nat))
                ==> {
                    &&& #[trigger] final(self).materials().dom().contains(k) == old(self).materials().dom().contains(k)
                    &&& old(self).materials().dom().contains(k) ==> final(self).materials()[k] == old(self).materials()[k]
                },
            model_info.materials is Some ==> forall|i: int| 0 <= i < model_info.materials->0@.len() ==> {
                &&& final(self).materials().dom().contains(#[trigger] material_id_spec(mesh_id@, i as nat))
                &&& final(self).materials()[material_id_spec(mesh_id@, i as nat)].base_color
                    == model_info.materials->0@[i].uniforms.base_color
                &&& final(self).materials()[material_id_spec(mesh_id@, i as nat)].metallic
                    == model_info.materials->0@[i].uniforms.metalness_factor
                &&& final(self).materials()[material_id_spec(mesh_id@, i as nat)].roughness
                    == model_info.materials->0@[i].uniforms.roughness_factor
                &&& final(self).materials()[material_id_spec(mesh_id@, i as nat)].normal_map
                    == model_info.materials->0@[i].normal_map
                &&& final(self).materials()[material_id_spec(mesh_id@, i as nat)].base_color_texture
                    == model_info.materials->0@[i].base_color_map
            },
            final(self).materials() == match model_info.materials {
                Some(ms) => register_materials(old(self).materials(), mesh_id@, ms@),
                None => old(self).materials(),
            },
            final(self).meshes_view().dom().contains(mesh_id@),
            final(self).meshes_view() == old(self).meshes_view().insert(mesh_id@, final(self).meshes_view()[mesh_id@]),
            handle_for(mesh_id@, old(self).mesh_registry_view().vertices().len() as int,
                old(self).mesh_registry_view().indices().len() as int, model_info.mesh->0,
                final(self).meshes_view()[mesh_id@]),
            final(self).mesh_registry_view().vertices() == old(self).mesh_registry_view().vertices()
                + zip_vertices(model_info.mesh->0.vertices@, model_info.mesh->0.normals@, model_info.mesh->0.uvs@),
            final(self).mesh_registry_view().indices() == old(self).mesh_registry_view().indices()
                + model_info.mesh->0.indices@,
            forall|i: int| 0 <= i < final(self).meshes_view()[mesh_id@].submeshes@.len() ==> {
                let sub = model_info.mesh->0.submeshes@[i];
                let handle = #[trigger] final(self).meshes_view()[mesh_id@].submeshes@[i];
                (sub.material_index is Some && model_info.materials is Some
                    && sub.material_index->0 < model_info.materials->0@.len())
                    ==> (handle.material_id matches Some(id)
                        && final(self).materials().dom().contains(id@)
                        && final(self).materials()[id@] == material_of(model_info.materials->0@[sub.material_index->0 as int]))
            },
    {
        let ModelLoadInfo { mesh, materials, textures: _ } = model_info;
        match materials {
            Some(ms) => {
                let ghost all = ms@;
                let n = ms.len();
                let mut ms = ms;
                let mut rest: Vec<MaterialLoadInfo> = Vec::new();
                while ms.len() > 0
                    invariant
                        ms@.len() + rest@.len() == n,
                        all.len() == n,
                        forall|i: int| 0 <= i < ms@.len() ==> ms@[i] == all[i],
                        forall|j: int| 0 <= j < rest@.len() ==> rest@[j] == all[n - 1 - j],
                    decreases ms@.len(),
                {
                    let m = ms.pop().unwrap();
                    rest.push(m);
                }
                let ghost start = self.material_registry.materials();
                let mut index: usize = 0;
                while rest.len() > 0
                    invariant
                        index + rest@.len() == n,
                        all.len() == n,
                        forall|j: int| 0 <= j < rest@.len() ==> rest@[j] == all[n - 1 - j],
                        self.material_registry.materials() == register_materials(start, mesh_id@, all.take(index as int)),
                        self.mesh_registry == old(self).mesh_registry,
                        self.texture_registry == old(self).texture_registry,
                    decreases rest@.len(),
                {
                    let info = rest.pop().unwrap();
                    let id = material_id(mesh_id.as_str(), index);
                    let ghost taken = all.take(index + 1);
                    assert(taken.drop_last() =~= all.take(index as int));
                    assert(taken.last() == info);
                    self.material_registry.register(id, Material::from(info));
                    index = index + 1;
                }
                assert(all.take(n as int) =~= all);
            },
            None => {},
        }
        proof {
            if materials is Some {
                let ms = materials->0@;
                assert forall|k: Seq<char>|
                    (forall|i: int| 0 <= i < ms.len() ==> k != #[trigger] material_id_spec(mesh_id@, i as nat))
                    implies {
                        &&& #[trigger] self.material_registry.materials().dom().contains(k)
                            == old(self).material_registry.materials().dom().contains(k)
                        &&& old(self).material_registry.materials().dom().contains(k)
                            ==> self.material_registry.materials()[k] == old(self).material_registry.materials()[k]
                    } by {
                    lemma_register_materials_keeps_others(old(self).material_registry.materials(), mesh_id@, ms, k);
                }
                assert forall|i: int| 0 <= i < ms.len() implies
                    self.material_registry.materials().dom().contains(#[trigger] material_id_spec(mesh_id@, i as nat))
                    && self.material_registry.materials()[material_id_spec(mesh_id@, i as nat)] == material_of(ms[i]) by {
                    lemma_registered_material(old(self).material_registry.materials(), mesh_id@, ms, i);
                }
            }
        }
        let mesh = mesh.unwrap();
        let ghost subs = mesh.submeshes@;
        self.mesh_registry.register_mesh(mesh_id.clone(), mesh);
        proof {
            let h = self.mesh_registry.handles()[mesh_id@];
            assert forall|i: int| 0 <= i < h.submeshes@.len() implies {
                let sub = subs[i];
                let handle = #[trigger] h.submeshes@[i];
                (sub.material_index is Some && materials is Some
                    && sub.material_index->0 < materials->0@.len())
                    ==> (handle.material_id matches Some(id)
                        && self.material_registry.materials().dom().contains(id@)
                        && self.material_registry.materials()[id@] == material_of(materials->0@[sub.material_index->0 as int]))
            } by {
                let sub = subs[i];
                assert(crate::common::mesh::submesh_handle_for(mesh_id@, old(self).mesh_registry.indices().len() as int,
                    subs[i], h.submeshes@[i]));
                if sub.material_index is Some && materials is Some {
                    let m = sub.material_index->0;
                    let ms = materials->0;
                    if m < ms@.len() {
                        lemma_submesh_materials_registered(old(self).material_registry.materials(), mesh_id@, ms@, m as nat);
                    }
                }
            }
        }
    }

    /// Looks up a registered mesh by its ID.
    pub fn get_mesh(&self, mesh_id: &String) -> (r: Option<&MeshHandle>)
        ensures
            match r {
                Some(h) => self.meshes_view().dom().contains(mesh_id@) && *h == self.meshes_view()[mesh_id@],
                None => !self.meshes_view().dom().contains(mesh_id@),
            },
    {
        self.mesh_registry.get(mesh_id)
    }

    /// Returns every currently registered mesh, keyed by ID.
    pub fn meshes(&self) -> (m: &StringMap<MeshHandle>)
        ensures
            m@ == self.meshes_view(),
    {
        self.mesh_registry.meshes()
    }

    /// Looks up a registered material by its ID (e.g. a submesh handle's `material_id`).
    pub fn get_material(&self, material_id: &String) -> (r: Option<&Material>)
        ensures
            match r {
                Some(m) => self.materials().dom().contains(material_id@) && *m == self.materials()[material_id@],
                None => !self.materials().dom().contains(material_id@),
            },
    {
        self.material_registry.get(material_id)
    }

    /// The mesh registry, whose vertex and index data the shared GPU buffers hold.
    pub fn mesh_registry(&self) -> (r: &MeshRegistry)
        ensures
            *r == self.mesh_registry_view(),
    {
        &self.mesh_registry
    }
}

} // verus!
