//! A scene: the meshes a world uses and where their instances stand.

use vstd::prelude::*;
use crate::common::paths::{path_join, path_join_spec, path_parent, path_parent_spec};
use crate::common::string_map::StringMap;
use crate::gpu::vertex3::Vec3Bits;

verus! {

/// A scene, which holds all information required to render a world: the paths of its
/// meshes, keyed by mesh ID, and the instances that place those meshes in the world.
pub struct Scene {
    /// The name of the scene.
    pub name: String,
    /// The paths to the meshes, relative to the scene file, keyed on the ID of the mesh.
    pub mesh_paths: StringMap<String>,
    /// The instances, keyed by the mesh's IDs.
    pub instances: StringMap<SceneInstance>,
}

/// The translation, rotation, and scale of an instance in the scene, each `f32` held by its
/// bit pattern.
#[derive(Clone, Copy, Debug)]
pub struct SceneInstance {
    pub translation: Vec3Bits,
    pub rotation: Vec3Bits,
    pub scale: Vec3Bits,
}

/// The directory mesh paths of the scene file at `scene_path` are relative to: its parent,
/// or `.` when it has none.
pub open spec fn scene_base_dir(scene_path: Seq<char>) -> Seq<char> {
    match path_parent_spec(scene_path) {
        Some(b) => b,
        None => "."@,
    }
}

impl Scene {
    /// Resolves every mesh path of `scene`, read from the file at `scene_path`, against the
    /// directory that holds that file. Mesh IDs, the name and the instances are unchanged.
    pub fn resolve_paths(scene_path: &str, scene: Scene) -> (r: Scene)
        ensures
            r.name@ == scene.name@,
            r.instances@ == scene.instances@,
            r.mesh_paths@.dom() == scene.mesh_paths@.dom(),
            forall|k: Seq<char>| #[trigger] r.mesh_paths@.dom().contains(k) ==>
                r.mesh_paths@[k]@ == path_join_spec(scene_base_dir(scene_path@), scene.mesh_paths@[k]@),
    {
        let base = match path_parent(scene_path) {
            Some(b) => b,
            None => String::from_str("."),
        };
        let Scene { name, mesh_paths, instances } = scene;
        let entries = mesh_paths.entries();
        let mut resolved: StringMap<String> = StringMap::new();
        let ghost b = scene_base_dir(scene_path@);
        let mut i: usize = 0;
        while i < entries.len()
            invariant
                base@ == b,
                i <= entries@.len(),
                forall|a: int, c: int| 0 <= a < c < entries@.len() ==> entries@[a].0@ != entries@[c].0@,
                forall|j: int| 0 <= j < i ==> {
                    &&& #[trigger] resolved@.dom().contains(entries@[j].0@)
                    &&& resolved@[entries@[j].0@]@ == path_join_spec(b, entries@[j].1@)
                },
                forall|k: Seq<char>| #[trigger] resolved@.dom().contains(k) ==>
                    exists|j: int| 0 <= j < i && entries@[j].0@ == k,
            decreases entries@.len() - i,
        {
            let id = entries[i].0.clone();
            let full = path_join(base.as_str(), entries[i].1.as_str());
            let ghost before = resolved@;
            resolved.insert(id, full);
            assert forall|j: int| 0 <= j < i + 1 implies {
                &&& #[trigger] resolved@.dom().contains(entries@[j].0@)
                &&& resolved@[entries@[j].0@]@ == path_join_spec(b, entries@[j].1@)
            } by {
                if j < i {
                    assert(entries@[j].0@ != entries@[i as int].0@);
                }
            }
            assert forall|k: Seq<char>| #[trigger] resolved@.dom().contains(k) implies
                exists|j: int| 0 <= j < i + 1 && entries@[j].0@ == k by {
                if k != entries@[i as int].0@ {
                    assert(before.dom().contains(k));
                }
            }
            i = i + 1;
        }
        assert(resolved@.dom() =~= mesh_paths@.dom()) by {
            assert forall|k: Seq<char>| mesh_paths@.dom().contains(k) implies resolved@.dom().contains(k) by {
                let j = choose|j: int| 0 <= j < entries@.len() && entries@[j].0@ == k;
                assert(resolved@.dom().contains(entries@[j].0@));
            }
            assert forall|k: Seq<char>| resolved@.dom().contains(k) implies mesh_paths@.dom().contains(k) by {
                let j = choose|j: int| 0 <= j < entries@.len() && entries@[j].0@ == k;
                assert(mesh_paths@.dom().contains(entries@[j].0@));
            }
        }
        assert forall|k: Seq<char>| #[trigger] resolved@.dom().contains(k) implies
            resolved@[k]@ == path_join_spec(b, mesh_paths@[k]@) by {
            let j = choose|j: int| 0 <= j < entries@.len() && entries@[j].0@ == k;
            assert(resolved@.dom().contains(entries@[j].0@));
            assert(mesh_paths@.dom().contains(entries@[j].0@));
        }
        Scene { name, mesh_paths: resolved, instances }
    }
}

} // verus!
