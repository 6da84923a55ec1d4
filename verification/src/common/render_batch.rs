//! Grouping the instances to draw by mesh, once per frame.

use vstd::prelude::*;
use crate::common::instance::InstanceRegistry;
use crate::common::mesh::MeshRegistry;
use crate::common::scene::SceneInstance;

verus! {

/// The instances of one mesh, drawn together in one instanced draw call.
pub struct RenderBatch {
    pub mesh_id: String,
    /// The instances, in the order their transforms go into the instance buffer.
    pub instances: Vec<SceneInstance>,
    pub instance_count: u32,
}

impl RenderBatch {
    /// Builds one batch per registered mesh, holding that mesh's instances. This is done
    /// once per frame.
    pub fn build_batches(mesh_registry: &MeshRegistry, instance_registry: &InstanceRegistry) -> (r: Vec<Self>)
        ensures
            forall|i: int| 0 <= i < r@.len() ==> {
                &&& #[trigger] mesh_registry.handles().dom().contains(r@[i].mesh_id@)
                &&& r@[i].instances@ == instance_registry.instances_for(r@[i].mesh_id@)
                &&& r@[i].instance_count == r@[i].instances@.len() as u32
            },
            forall|k: Seq<char>| #[trigger] mesh_registry.handles().dom().contains(k) ==>
                exists|i: int| 0 <= i < r@.len() && r@[i].mesh_id@ == k,
            forall|i: int, j: int| 0 <= i < j < r@.len() ==> r@[i].mesh_id@ != r@[j].mesh_id@,
    {
        let entries = mesh_registry.meshes().entries();
        let mut out: Vec<RenderBatch> = Vec::new();
        let mut i: usize = 0;
        while i < entries.len()
            invariant
                i <= entries@.len(),
                out@.len() == i,
                forall|j: int| 0 <= j < entries@.len() ==> #[trigger] mesh_registry.handles().dom().contains(entries@[j].0@),
                forall|j: int| 0 <= j < i ==> {
                    &&& #[trigger] out@[j].mesh_id@ == entries@[j].0@
                    &&& out@[j].instances@ == instance_registry.instances_for(entries@[j].0@)
                    &&& out@[j].instance_count == out@[j].instances@.len() as u32
                },
            decreases entries@.len() - i,
        {
            let id = entries[i].0.clone();
            let instances = instance_registry.get_instances_for(&id);
            let count = instances.len() as u32;
            out.push(RenderBatch { mesh_id: id, instances, instance_count: count });
            i = i + 1;
        }
        assert forall|i: int| 0 <= i < out@.len() implies {
            &&& #[trigger] mesh_registry.handles().dom().contains(out@[i].mesh_id@)
            &&& out@[i].instances@ == instance_registry.instances_for(out@[i].mesh_id@)
            &&& out@[i].instance_count == out@[i].instances@.len() as u32
        } by {
            assert(out@[i].mesh_id@ == entries@[i].0@);
        }
        assert forall|k: Seq<char>| #[trigger] mesh_registry.handles().dom().contains(k) implies
            exists|i: int| 0 <= i < out@.len() && out@[i].mesh_id@ == k by {
            let j = choose|j: int| 0 <= j < entries@.len() && entries@[j].0@ == k;
            assert(out@[j].mesh_id@ == entries@[j].0@);
        }
        assert forall|i: int, j: int| 0 <= i < j < out@.len() implies out@[i].mesh_id@ != out@[j].mesh_id@ by {
            assert(out@[i].mesh_id@ == entries@[i].0@);
            assert(out@[j].mesh_id@ == entries@[j].0@);
        }
        out
    }
}

} // verus!
