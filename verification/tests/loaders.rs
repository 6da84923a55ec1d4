use vkrender::assets::loaders::common::{MaterialUniforms, MeshLoadInfo, Submesh};
use vkrender::assets::loaders::gltf_loader::{GltfLoader, GltfMaterialDesc, TextureSource};
use vkrender::assets::loaders::model_loader::{ModelLoadInfo, ModelLoadOptions, ModelLoader};
use vkrender::assets::loaders::obj_loader::ObjLoader;
use vkrender::loaders::gltf_loader::GltfLoader as MeshGltfLoader;
use vkrender::loaders::material::mat_loader::{MaterialFileFormat, MaterialLoader, MaterialLoaderError};
use vkrender::loaders::mesh::mesh_loader::{MeshFileFormat, MeshInfo, MeshLoader, MeshLoaderError};
use vkrender::loaders::obj_loader::ObjLoader as MeshObjLoader;

fn v(a: u32) -> [u32; 3] {
    [a, a, a]
}

#[test]
fn mesh_loader_dispatches_on_extension() {
    let l = MeshLoader::new();
    assert!(matches!(l.select_loader("meshes/laat/scene.gltf"), Ok(MeshFileFormat::Gltf)));
    assert!(matches!(l.select_loader("model.glb"), Ok(MeshFileFormat::Gltf)));
    assert!(matches!(l.select_loader("scene.obj"), Ok(MeshFileFormat::Obj)));
    match l.select_loader("model.fbx") {
        Err(MeshLoaderError::ExtensionNotSupported(e)) => assert_eq!(e, "fbx"),
        _ => panic!("fbx should be unsupported"),
    }
    assert!(matches!(l.select_loader("dir.d/model"), Err(MeshLoaderError::MissingExtension)));
    assert!(matches!(l.select_loader(".gltf"), Err(MeshLoaderError::MissingExtension)));
    assert!(matches!(l.loader_for_extension(None), Err(MeshLoaderError::MissingExtension)));
    assert!(matches!(l.loader_for_extension(Some("obj".to_string())), Ok(MeshFileFormat::Obj)));
}

#[test]
fn material_loader_reads_only_gltf() {
    let l = MaterialLoader::new();
    assert!(matches!(l.select_loader("ship.gltf"), Ok(MaterialFileFormat::Gltf)));
    match l.select_loader("ship.mtl") {
        Err(MaterialLoaderError::ExtensionNotSupported(e)) => assert_eq!(e, "mtl"),
        _ => panic!("mtl should be unsupported"),
    }
    assert!(matches!(l.select_loader("ship"), Err(MaterialLoaderError::MissingExtension)));
}

#[test]
fn gltf_primitives_shift_indices_and_record_submeshes() {
    let mut m = MeshLoadInfo::empty();
    GltfLoader::append_primitive(&mut m, vec![v(1), v(2), v(3)], vec![v(4), v(5), v(6)], vec![v(7); 3], vec![0, 1, 2], Some(1));
    GltfLoader::append_primitive(&mut m, vec![v(8), v(9)], vec![v(1), v(1)], vec![v(2), v(2)], vec![1, 0, 1], None);
    assert_eq!(m.vertices.len(), 5);
    assert_eq!(m.normals.len(), 5);
    assert_eq!(m.uvs.len(), 5);
    assert_eq!(m.indices, vec![0, 1, 2, 4, 3, 4]);
    assert_eq!(m.submeshes.len(), 2);
    assert_eq!((m.submeshes[0].material_index, m.submeshes[0].index_start, m.submeshes[0].index_count), (Some(1), 0, 3));
    assert_eq!((m.submeshes[1].material_index, m.submeshes[1].index_start, m.submeshes[1].index_count), (None, 3, 3));
}

#[test]
fn gltf_mesh_primitives_shift_indices() {
    let mut m = MeshInfo::empty();
    MeshGltfLoader::append_primitive(&mut m, vec![v(1), v(2)], vec![], vec![], vec![0, 1]);
    MeshGltfLoader::append_primitive(&mut m, vec![v(3)], vec![], vec![], vec![0, 0]);
    assert_eq!(m.indices, vec![0, 1, 2, 2]);
    assert_eq!(m.vertices.len(), 3);
}

#[test]
fn texture_ids_use_uri_or_embedded_index() {
    let ext = TextureSource { uri: Some("textures/hull.png".to_string()), image_index: 2 };
    assert_eq!(GltfLoader::texture_id(&ext), "textures/hull.png");
    let emb = TextureSource { uri: None, image_index: 2 };
    assert_eq!(GltfLoader::texture_id(&emb), "embedded_image_2");
}

fn desc(name: Option<&str>) -> GltfMaterialDesc {
    GltfMaterialDesc {
        name: name.map(|s| s.to_string()),
        uniforms: MaterialUniforms { base_color: [1, 1, 1, 1], metalness_factor: 0, roughness_factor: 9 },
        base_color_texture: Some(TextureSource { uri: None, image_index: 0 }),
        metallic_roughness_texture: None,
        normal_texture: Some(TextureSource { uri: Some("n.png".to_string()), image_index: 1 }),
    }
}

#[test]
fn gltf_materials_keep_document_order_and_default_names() {
    let loader = GltfLoader;
    let infos = loader.load_materials(vec![desc(Some("hull")), desc(None), desc(None)]);
    assert_eq!(infos.len(), 3);
    assert_eq!(infos[0].name, "hull");
    assert_eq!(infos[1].name, "material_1");
    assert_eq!(infos[2].name, "material_2");
    assert_eq!(infos[1].base_color_map.as_deref(), Some("embedded_image_0"));
    assert_eq!(infos[1].roughness_map, None);
    assert_eq!(infos[1].normal_map.as_deref(), Some("n.png"));
    assert_eq!(infos[2].uniforms.roughness_factor, 9);
}

#[test]
fn obj_meshes_flatten_triangles_into_one_submesh() {
    let m = ObjLoader.mesh_from_obj(vec![v(1), v(2), v(3)], vec![v(4)], vec![], &vec![[0, 1, 2], [2, 1, 0]]);
    assert_eq!(m.indices, vec![0, 1, 2, 2, 1, 0]);
    assert_eq!(m.vertices.len(), 3);
    assert_eq!(m.normals.len(), 1);
    assert_eq!(m.submeshes.len(), 1);
    let s: Submesh = m.submeshes[0];
    assert_eq!((s.material_index, s.index_start, s.index_count), (None, 0, 6));
}

#[test]
fn obj_indices_are_truncated_to_u32() {
    let big = (u32::MAX as usize) + 6;
    let m = MeshObjLoader.mesh_from_obj(vec![], vec![], vec![], &vec![[big, 1, 2]]);
    assert_eq!(m.indices, vec![5, 1, 2]);
}

#[test]
fn model_load_defaults_load_nothing() {
    let o = ModelLoadOptions::default();
    assert!(!o.load_mesh && !o.load_materials && !o.load_textures);
    let info = ModelLoadInfo::default();
    assert!(info.mesh.is_none() && info.materials.is_none() && info.textures.is_none());
    let _ = ModelLoader::new();
}
