//! Materials, and the registry they are looked up in.

use vstd::prelude::*;
use crate::assets::loaders::common::MaterialLoadInfo;
use crate::common::string_map::StringMap;
use crate::loaders::material::mat_loader::MaterialInfo;

verus! {

/// Encapsulates all the information that makes up a PBR (physically based rendering)
/// material; each `f32` is held by its bit pattern. These materials are stored in a
/// [`MaterialRegistry`], under a unique key.
pub struct Material {
    /// The base color of the material.
    pub base_color: [u32; 4],
    /// The metallic value of the material, between 0 and 1.
    pub metallic: u32,
    /// The roughness value of the material, between 0 and 1.
    pub roughness: u32,
    /// The path of the normal map for this material, if any.
    pub normal_map: Option<String>,
    /// The path of the base color's texture, if any.
    pub base_color_texture: Option<String>,
}

/// The material a model loader's material description becomes; its roughness map is
/// dropped.
pub open spec fn material_of(info: MaterialLoadInfo) -> Material {
    Material {
        base_color: info.uniforms.base_color,
        metallic: info.uniforms.metalness_factor,
        roughness: info.uniforms.roughness_factor,
        normal_map: info.normal_map,
        base_color_texture: info.base_color_map,
    }
}

/// A registry of materials keyed by id.
pub struct MaterialRegistry {
    materials: StringMap<Material>,
}

impl MaterialRegistry {
    /// The registered materials, by id.
    pub closed spec fn materials(&self) -> Map<Seq<char>, Material> {
        self.materials@
    }

    /// An empty registry.
    pub fn new() -> (r: Self)
        ensures
            r.materials() == Map::<Seq<char>, Material>::empty(),
    {
        Self { materials: StringMap::new() }
    }

    /// Files `material` under `id`, replacing any earlier material with that id.
    pub fn register(&mut self, id: String, material: Material)
        ensures
            final(self).materials() == old(self).materials().insert(id@, material),
    {
        self.materials.insert(id, material);
    }

    /// Looks a material up by id.
    pub fn get(&self, id: &String) -> (r: Option<&Material>)
        ensures
            match r {
                Some(m) => self.materials().dom().contains(id@) && *m == self.materials()[id@],
                None => !self.materials().dom().contains(id@),
            },
    {
        self.materials.get(id)
    }
}

/// Registering a material files it under its id and leaves every other id as it was: a
/// lookup of `id` after registering `m` under it finds `m`, and a lookup of any other id
/// finds what it found before.
pub proof fn lemma_register_then_get(
    before: MaterialRegistry,
    after: MaterialRegistry,
    id: Seq<char>,
    m: Material,
    other: Seq<char>,
)
    requires
        after.materials() == before.materials().insert(id, m),
    ensures
        after.materials().dom().contains(id),
        after.materials()[id] == m,
        other != id ==> (after.materials().dom().contains(other) == before.materials().dom().contains(other)),
        other != id && before.materials().dom().contains(other) ==> after.materials()[other] == before.materials()[other],
{
}

/// The materials after registering each `(id, material)` of `regs` in turn, starting from
/// `start`.
pub open spec fn registered_all(start: Map<Seq<char>, Material>, regs: Seq<(Seq<char>, Material)>) -> Map<Seq<char>, Material>
    decreases regs.len(),
{
    if regs.len() == 0 {
        start
    } else {
        registered_all(start, regs.drop_last()).insert(regs.last().0, regs.last().1)
    }
}

/// The material of the last registration of `id` in `regs`, if any.
pub open spec fn last_registered(regs: Seq<(Seq<char>, Material)>, id: Seq<char>) -> Option<Material>
    decreases regs.len(),
{
    if regs.len() == 0 {
        None
    } else if regs.last().0 == id {
        Some(regs.last().1)
    } else {
        last_registered(regs.drop_last(), id)
    }
}

/// After any sequence of registrations on an empty registry, the last registration of an
/// id wins and registrations of other ids do not affect it; an id never registered is not
/// found.
pub proof fn lemma_last_registration_wins(regs: Seq<(Seq<char>, Material)>, id: Seq<char>)
    ensures
        registered_all(Map::empty(), regs).dom().contains(id) <==> last_registered(regs, id) is Some,
        last_registered(regs, id) matches Some(m) ==> registered_all(Map::empty(), regs)[id] == m,
        (forall|i: int| 0 <= i < regs.len() ==> #[trigger] regs[i].0 != id) ==> last_registered(regs, id) is None,
    decreases regs.len(),
{
    if regs.len() > 0 {
        lemma_last_registration_wins(regs.drop_last(), id);
        if forall|i: int| 0 <= i < regs.len() ==> #[trigger] regs[i].0 != id {
            assert(regs.last().0 != id);
            assert forall|i: int| 0 <= i < regs.drop_last().len() implies #[trigger] regs.drop_last()[i].0 != id by {
                assert(regs.drop_last()[i] == regs[i]);
            }
        }
    }
}

/// Converting a file loader's material keeps each field where it belongs: the base color,
/// metallic and roughness factors, the normal map, and the base color map as the base color
/// texture (the roughness map has no place in a material).
pub proof fn lemma_material_from_info(info: MaterialInfo)
    ensures
        <Material as vstd::std_specs::convert::FromSpec<MaterialInfo>>::from_spec(info).base_color == info.uniforms.base_color,
        <Material as vstd::std_specs::convert::FromSpec<MaterialInfo>>::from_spec(info).metallic == info.uniforms.metalness_factor,
        <Material as vstd::std_specs::convert::FromSpec<MaterialInfo>>::from_spec(info).roughness == info.uniforms.roughness_factor,
        <Material as vstd::std_specs::convert::FromSpec<MaterialInfo>>::from_spec(info).normal_map == info.normal_map,
        <Material as vstd::std_specs::convert::FromSpec<MaterialInfo>>::from_spec(info).base_color_texture == info.base_color_map,
{
}

/// Converting a model loader's material keeps each field where it belongs, as for a file
/// loader's material.
pub proof fn lemma_material_of_load_info(info: MaterialLoadInfo)
    ensures
        material_of(info).base_color == info.uniforms.base_color,
        material_of(info).metallic == info.uniforms.metalness_factor,
        material_of(info).roughness == info.uniforms.roughness_factor,
        material_of(info).normal_map == info.normal_map,
        material_of(info).base_color_texture == info.base_color_map,
{
}

impl From<MaterialInfo> for Material {
    /// Converts loader output into a storable `Material`. `MaterialInfo::roughness_map` has
    /// no equivalent here yet.
    fn from(info: MaterialInfo) -> (m: Self)
        ensures
            m.base_color == info.uniforms.base_color,
            m.metallic == info.uniforms.metalness_factor,
            m.roughness == info.uniforms.roughness_factor,
            m.normal_map == info.normal_map,
            m.base_color_texture == info.base_color_map,
    {
        Self {
            base_color: info.uniforms.base_color,
            metallic: info.uniforms.metalness_factor,
            roughness: info.uniforms.roughness_factor,
            normal_map: info.normal_map,
            base_color_texture: info.base_color_map,
        }
    }
}

impl vstd::std_specs::convert::FromSpecImpl<MaterialInfo> for Material {
    open spec fn obeys_from_spec() -> bool {
        true
    }

    open spec fn from_spec(info: MaterialInfo) -> Material {
        Material {
            base_color: info.uniforms.base_color,
            metallic: info.uniforms.metalness_factor,
            roughness: info.uniforms.roughness_factor,
            normal_map: info.normal_map,
            base_color_texture: info.base_color_map,
        }
    }
}

impl From<MaterialLoadInfo> for Material {
    /// Converts a model loader's material into a storable `Material`; the roughness map is
    /// dropped as for [`MaterialInfo`].
    fn from(info: MaterialLoadInfo) -> (m: Self)
        ensures
            m.base_color == info.uniforms.base_color,
            m.metallic == info.uniforms.metalness_factor,
            m.roughness == info.uniforms.roughness_factor,
            m.normal_map == info.normal_map,
            m.base_color_texture == info.base_color_map,
    {
        Self {
            base_color: info.uniforms.base_color,
            metallic: info.uniforms.metalness_factor,
            roughness: info.uniforms.roughness_factor,
            normal_map: info.normal_map,
            base_color_texture: info.base_color_map,
        }
    }
}

impl vstd::std_specs::convert::FromSpecImpl<MaterialLoadInfo> for Material {
    open spec fn obeys_from_spec() -> bool {
        true
    }

    open spec fn from_spec(info: MaterialLoadInfo) -> Material {
        material_of(info)
    }
}

} // verus!
