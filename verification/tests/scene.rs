use vkrender::assets::asset_manager::AssetManager;
use vkrender::assets::loaders::common::{MaterialLoadInfo, MaterialUniforms, MeshLoadInfo, Submesh};
use vkrender::assets::loaders::model_loader::ModelLoadInfo;
use vkrender::common::instance::InstanceRegistry;
use vkrender::common::mesh::MeshRegistry;
use vkrender::common::render_batch::RenderBatch;
use vkrender::common::scene::{Scene, SceneInstance};
use vkrender::common::string_map::StringMap;

fn instance(a: u32) -> SceneInstance {
    SceneInstance { translation: [a, 0, 0], rotation: [0, a, 0], scale: [1, 1, a] }
}

fn scene(paths: &[(&str, &str)], instances: &[(&str, u32)]) -> Scene {
    let mut mesh_paths = StringMap::new();
    for (k, p) in paths {
        mesh_paths.insert(k.to_string(), p.to_string());
    }
    let mut inst = StringMap::new();
    for (k, a) in instances {
        inst.insert(k.to_string(), instance(*a));
    }
    Scene { name: "Testing Scene".to_string(), mesh_paths, instances: inst }
}

#[test]
fn mesh_paths_resolve_against_the_scene_directory() {
    let s = scene(&[("venator", "Venator.obj"), ("abs", "/models/a.gltf")], &[("venator", 1)]);
    let r = Scene::resolve_paths("scenes/test_scene.scene", s);
    assert_eq!(r.name, "Testing Scene");
    assert_eq!(r.mesh_paths.get(&"venator".to_string()).unwrap(), "scenes/Venator.obj");
    assert_eq!(r.mesh_paths.get(&"abs".to_string()).unwrap(), "/models/a.gltf");
    assert_eq!(r.mesh_paths.len(), 2);
    assert_eq!(r.instances.len(), 1);
}

#[test]
fn a_scene_file_without_directory_keeps_relative_paths() {
    let s = scene(&[("venator", "Venator.obj")], &[]);
    let r = Scene::resolve_paths("test_scene.scene", s);
    assert_eq!(r.mesh_paths.get(&"venator".to_string()).unwrap(), "Venator.obj");
}

#[test]
fn instances_are_grouped_by_mesh() {
    let s = scene(&[], &[("a", 1), ("b", 2)]);
    let reg = InstanceRegistry::from_scene(&s);
    let a = reg.get_instances_for(&"a".to_string());
    assert_eq!(a.len(), 1);
    assert_eq!(a[0].translation, [1, 0, 0]);
    assert_eq!(reg.get_instances_for(&"b".to_string())[0].scale, [1, 1, 2]);
    assert!(reg.get_instances_for(&"c".to_string()).is_empty());
    assert_eq!(reg.get_instances_for(&"a".to_string()).len(), 1);
}

fn mesh_info(indices: Vec<u32>, submeshes: Vec<Submesh>) -> MeshLoadInfo {
    MeshLoadInfo { vertices: vec![[0; 3]; 2], normals: vec![[0; 3]; 2], indices, uvs: vec![[0; 3]; 2], submeshes }
}

#[test]
fn one_batch_per_registered_mesh() {
    let mut meshes = MeshRegistry::new();
    meshes.register_mesh("a".to_string(), mesh_info(vec![0, 1], vec![]));
    meshes.register_mesh("z".to_string(), mesh_info(vec![0], vec![]));
    let reg = InstanceRegistry::from_scene(&scene(&[], &[("a", 3), ("q", 4)]));
    let batches = RenderBatch::build_batches(&meshes, &reg);
    assert_eq!(batches.len(), 2);
    let a = batches.iter().find(|b| b.mesh_id == "a").unwrap();
    assert_eq!(a.instance_count, 1);
    assert_eq!(a.instances[0].translation, [3, 0, 0]);
    let z = batches.iter().find(|b| b.mesh_id == "z").unwrap();
    assert_eq!(z.instance_count, 0);
}

fn material(name: &str, metal: u32) -> MaterialLoadInfo {
    MaterialLoadInfo {
        name: name.to_string(),
        uniforms: MaterialUniforms { base_color: [0; 4], metalness_factor: metal, roughness_factor: 0 },
        base_color_map: None,
        roughness_map: None,
        normal_map: None,
    }
}

#[test]
fn submeshes_find_the_materials_of_their_model() {
    let mut assets: AssetManager<u32> = AssetManager::new();
    let info = ModelLoadInfo {
        mesh: Some(mesh_info(vec![0, 1, 1, 0], vec![
            Submesh { material_index: Some(1), index_start: 0, index_count: 2 },
            Submesh { material_index: Some(0), index_start: 2, index_count: 2 },
        ])),
        materials: Some(vec![material("a", 10), material("b", 11)]),
        textures: None,
    };
    let id = "ship".to_string();
    assets.register_model(&id, info);
    let handle = assets.get_mesh(&id).unwrap();
    let m0 = handle.submeshes[0].material_id.clone().unwrap();
    assert_eq!(m0, "ship_mat_1");
    assert_eq!(assets.get_material(&m0).unwrap().metallic, 11);
    let m1 = handle.submeshes[1].material_id.clone().unwrap();
    assert_eq!(assets.get_material(&m1).unwrap().metallic, 10);
    assert_eq!(assets.meshes().len(), 1);
    assert_eq!(assets.mesh_registry().raw_indices().len(), 4);
}

#[test]
fn a_model_without_materials_registers_only_its_mesh() {
    let mut assets: AssetManager<u32> = AssetManager::new();
    let info = ModelLoadInfo {
        mesh: Some(mesh_info(vec![0], vec![Submesh { material_index: Some(0), index_start: 0, index_count: 1 }])),
        materials: None,
        textures: None,
    };
    assets.register_model(&"m".to_string(), info);
    assert!(assets.get_mesh(&"m".to_string()).is_some());
    assert!(assets.get_material(&"m_mat_0".to_string()).is_none());
}
