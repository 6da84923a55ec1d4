//! The instances of each mesh, as a scene places them.

use vstd::prelude::*;
use crate::common::scene::{Scene, SceneInstance};
use crate::common::string_map::StringMap;

verus! {

/// A registry of the instances placed for each mesh ID.
pub struct InstanceRegistry {
    instances: StringMap<Vec<SceneInstance>>,
}

fn copy_instances(v: &Vec<SceneInstance>) -> (r: Vec<SceneInstance>)
    ensures
        r@ == v@,
{
    let mut out: Vec<SceneInstance> = Vec::new();
    let mut i: usize = 0;
    while i < v.len()
        invariant
            i <= v@.len(),
            out@ == v@.take(i as int),
        decreases v@.len() - i,
    {
        out.push(v[i]);
        i = i + 1;
        assert(out@ =~= v@.take(i as int));
    }
    assert(v@.take(i as int) =~= v@);
    out
}

impl InstanceRegistry {
    /// The IDs of the meshes that have instances.
    pub closed spec fn mesh_ids(&self) -> Set<Seq<char>> {
        self.instances@.dom()
    }

    /// The instances of mesh `id`, none if it has none.
    pub closed spec fn instances_for(&self, id: Seq<char>) -> Seq<SceneInstance> {
        if self.instances@.dom().contains(id) {
            self.instances@[id]@
        } else {
            Seq::empty()
        }
    }

    /// Reads the instances of a scene. A scene holds one instance per mesh ID, so each
    /// mesh with an instance gets exactly that one.
    pub fn from_scene(scene: &Scene) -> (r: Self)
        ensures
            r.mesh_ids() == scene.instances@.dom(),
            forall|k: Seq<char>| #[trigger] scene.instances@.dom().contains(k) ==>
                r.instances_for(k) == seq![scene.instances@[k]],
            forall|k: Seq<char>| !#[trigger] scene.instances@.dom().contains(k) ==>
                r.instances_for(k) == Seq::<SceneInstance>::empty(),
    {
        let entries = scene.instances.entries();
        let mut instances: StringMap<Vec<SceneInstance>> = StringMap::new();
        let mut i: usize = 0;
        while i < entries.len()
            invariant
                i <= entries@.len(),
                forall|a: int, c: int| 0 <= a < c < entries@.len() ==> entries@[a].0@ != entries@[c].0@,
                forall|j: int| 0 <= j < i ==> {
                    &&& #[trigger] instances@.dom().contains(entries@[j].0@)
                    &&& instances@[entries@[j].0@]@ == seq![entries@[j].1]
                },
                forall|k: Seq<char>| #[trigger] instances@.dom().contains(k) ==>
                    exists|j: int| 0 <= j < i && entries@[j].0@ == k,
            decreases entries@.len() - i,
        {
            let id = entries[i].0.clone();
            let mut list: Vec<SceneInstance> = Vec::new();
            list.push(entries[i].1);
            let ghost before = instances@;
            instances.insert(id, list);
            assert forall|j: int| 0 <= j < i + 1 implies {
                &&& #[trigger] instances@.dom().contains(entries@[j].0@)
                &&& instances@[entries@[j].0@]@ == seq![entries@[j].1]
            } by {
                if j < i {
                    assert(entries@[j].0@ != entries@[i as int].0@);
                }
            }
            assert forall|k: Seq<char>| #[trigger] instances@.dom().contains(k) implies
                exists|j: int| 0 <= j < i + 1 && entries@[j].0@ == k by {
                if k != entries@[i as int].0@ {
                    assert(before.dom().contains(k));
                }
            }
            i = i + 1;
        }
        assert(instances@.dom() =~= scene.instances@.dom()) by {
            assert forall|k: Seq<char>| scene.instances@.dom().contains(k) implies instances@.dom().contains(k) by {
                let j = choose|j: int| 0 <= j < entries@.len() && entries@[j].0@ == k;
                assert(instances@.dom().contains(entries@[j].0@));
            }
            assert forall|k: Seq<char>| instances@.dom().contains(k) implies scene.instances@.dom().contains(k) by {
                let j = choose|j: int| 0 <= j < entries@.len() && entries@[j].0@ == k;
                assert(scene.instances@.dom().contains(entries@[j].0@));
            }
        }
        assert forall|k: Seq<char>| #[trigger] scene.instances@.dom().contains(k) implies
            instances@[k]@ == seq![scene.instances@[k]] by {
            let j = choose|j: int| 0 <= j < entries@.len() && entries@[j].0@ == k;
            assert(instances@.dom().contains(entries@[j].0@));
            assert(scene.instances@.dom().contains(entries@[j].0@));
        }
        Self { instances }
    }

    /// The instances of mesh `mesh_id`, copied out; none if it has none.
    pub fn get_instances_for(&self, mesh_id: &String) -> (r: Vec<SceneInstance>)
        ensures
            r@ == self.instances_for(mesh_id@),
    {
        match self.instances.get(mesh_id) {
            Some(v) => copy_instances(v),
            None => Vec::new(),
        }
    }
}

} // verus!
