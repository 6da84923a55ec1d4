use vkrender::assets::loaders::common::{MaterialLoadInfo, MaterialUniforms, MeshLoadInfo, Submesh};
use vkrender::common::material::{Material, MaterialRegistry};
use vkrender::common::mesh::MeshRegistry;
use vkrender::common::string_map::StringMap;
use vkrender::common::texture::TextureRegistry;
use vkrender::gpu::vertex3::Vertex3;
use vkrender::loaders::material::mat_loader::{MaterialInfo, MaterialUniforms as FileUniforms};

fn v(a: u32) -> [u32; 3] {
    [a, a + 1, a + 2]
}

fn mesh(n: u32, indices: Vec<u32>, submeshes: Vec<Submesh>) -> MeshLoadInfo {
    MeshLoadInfo {
        vertices: (0..n).map(|i| v(100 + i)).collect(),
        normals: (0..n).map(|i| v(200 + i)).collect(),
        indices,
        uvs: (0..n).map(|i| v(300 + i)).collect(),
        submeshes,
    }
}

#[test]
fn string_map_insert_get_and_replace() {
    let mut m: StringMap<u32> = StringMap::new();
    assert_eq!(m.len(), 0);
    m.insert("a".to_string(), 1);
    m.insert("b".to_string(), 2);
    m.insert("a".to_string(), 3);
    assert_eq!(m.len(), 2);
    assert_eq!(m.get(&"a".to_string()), Some(&3));
    assert_eq!(m.get(&"b".to_string()), Some(&2));
    assert_eq!(m.get(&"c".to_string()), None);
    assert!(m.contains_key(&"b".to_string()));
    let keys: Vec<&str> = m.entries().iter().map(|(k, _)| k.as_str()).collect();
    assert_eq!(keys, vec!["a", "b"]);
}

#[test]
fn registered_meshes_point_at_their_data() {
    let mut reg = MeshRegistry::new();
    reg.register_mesh(
        "first".to_string(),
        mesh(3, vec![0, 1, 2], vec![Submesh { material_index: Some(0), index_start: 0, index_count: 3 }]),
    );
    reg.register_mesh(
        "second".to_string(),
        mesh(2, vec![1, 0, 1, 1], vec![
            Submesh { material_index: None, index_start: 0, index_count: 2 },
            Submesh { material_index: Some(4), index_start: 2, index_count: 2 },
        ]),
    );
    let first = reg.get(&"first".to_string()).unwrap();
    assert_eq!((first.vertex_loc, first.vertex_count, first.index_loc, first.index_count), (0, 3, 0, 3));
    assert_eq!(first.id, "first");
    assert_eq!(first.submeshes[0].material_id.as_deref(), Some("first_mat_0"));
    let second = reg.get(&"second".to_string()).unwrap();
    assert_eq!((second.vertex_loc, second.vertex_count, second.index_loc, second.index_count), (3, 2, 3, 4));
    assert_eq!(second.submeshes.len(), 2);
    assert_eq!(second.submeshes[0].material_id, None);
    assert_eq!((second.submeshes[0].index_loc, second.submeshes[0].index_count), (3, 2));
    assert_eq!(second.submeshes[1].material_id.as_deref(), Some("second_mat_4"));
    assert_eq!((second.submeshes[1].index_loc, second.submeshes[1].index_count), (5, 2));
    assert_eq!(reg.raw_indices(), &vec![0, 1, 2, 1, 0, 1, 1]);
    assert_eq!(reg.raw_vertices().len(), 5);
    let vert = reg.raw_vertices()[3];
    assert_eq!((vert.position, vert.normal, vert.uv), (v(100), v(200), v(300)));
    assert!(reg.has_mesh(&"second".to_string()));
    assert!(!reg.has_mesh(&"third".to_string()));
    assert!(reg.get(&"third".to_string()).is_none());
}

#[test]
fn vertex_zip_stops_at_the_shortest_attribute() {
    let mut reg = MeshRegistry::new();
    let mut info = mesh(4, vec![0], vec![]);
    info.normals.truncate(2);
    reg.register_mesh("short".to_string(), info);
    let h = reg.get(&"short".to_string()).unwrap();
    assert_eq!(h.vertex_count, 2);
    assert_eq!(reg.raw_vertices().len(), 2);
    let mut lone = mesh(1, vec![], vec![]);
    lone.normals.clear();
    reg.register_mesh("lone".to_string(), lone);
    let h = reg.get(&"lone".to_string()).unwrap();
    assert_eq!((h.vertex_loc, h.vertex_count), (2, 0));
    assert_eq!(reg.raw_vertices().len(), 2);
}

#[test]
fn reregistering_replaces_the_handle_and_appends_data() {
    let mut reg = MeshRegistry::new();
    reg.register_mesh("m".to_string(), mesh(2, vec![0, 1], vec![]));
    reg.register_mesh("m".to_string(), mesh(1, vec![0], vec![]));
    let h = reg.get(&"m".to_string()).unwrap();
    assert_eq!((h.vertex_loc, h.index_loc, h.index_count), (2, 2, 1));
    assert_eq!(reg.raw_indices(), &vec![0, 1, 0]);
    assert_eq!(reg.meshes().len(), 1);
}

fn uniforms() -> MaterialUniforms {
    MaterialUniforms { base_color: [1, 2, 3, 4], metalness_factor: 5, roughness_factor: 6 }
}

#[test]
fn materials_convert_and_register() {
    let info = MaterialLoadInfo {
        name: "hull".to_string(),
        uniforms: uniforms(),
        base_color_map: Some("albedo.png".to_string()),
        roughness_map: Some("rough.png".to_string()),
        normal_map: None,
    };
    let m = Material::from(info);
    assert_eq!(m.base_color, [1, 2, 3, 4]);
    assert_eq!((m.metallic, m.roughness), (5, 6));
    assert_eq!(m.base_color_texture.as_deref(), Some("albedo.png"));
    assert_eq!(m.normal_map, None);

    let file_info = MaterialInfo {
        name: "x".to_string(),
        uniforms: FileUniforms { base_color: [9, 9, 9, 9], metalness_factor: 1, roughness_factor: 2 },
        base_color_map: None,
        roughness_map: None,
        normal_map: Some("n.png".to_string()),
    };
    let m2 = Material::from(file_info);
    assert_eq!(m2.normal_map.as_deref(), Some("n.png"));
    assert_eq!((m2.metallic, m2.roughness), (1, 2));

    let mut reg = MaterialRegistry::new();
    reg.register("a".to_string(), m);
    reg.register("b".to_string(), m2);
    assert_eq!(reg.get(&"a".to_string()).unwrap().metallic, 5);
    assert_eq!(reg.get(&"b".to_string()).unwrap().metallic, 1);
    assert!(reg.get(&"c".to_string()).is_none());
}

fn plain(metallic: u32) -> Material {
    Material { base_color: [0; 4], metallic, roughness: 0, normal_map: None, base_color_texture: None }
}

#[test]
fn the_last_registration_of_a_material_wins() {
    let mut reg = MaterialRegistry::new();
    reg.register("a".to_string(), plain(1));
    reg.register("b".to_string(), plain(2));
    reg.register("a".to_string(), plain(3));
    reg.register("c".to_string(), plain(4));
    reg.register("b".to_string(), plain(5));
    assert_eq!(reg.get(&"a".to_string()).unwrap().metallic, 3);
    assert_eq!(reg.get(&"b".to_string()).unwrap().metallic, 5);
    assert_eq!(reg.get(&"c".to_string()).unwrap().metallic, 4);
    assert!(reg.get(&"d".to_string()).is_none());
}

#[test]
fn textures_register_and_get() {
    let mut reg: TextureRegistry<u32> = TextureRegistry::new();
    reg.register("t".to_string(), 7);
    reg.register("t".to_string(), 8);
    assert_eq!(reg.get("t"), Some(&8));
    assert_eq!(reg.get("u"), None);
}

#[test]
fn vertex_new_keeps_its_attributes() {
    let vert = Vertex3::new(v(1), v(2), v(3));
    assert_eq!((vert.position, vert.normal, vert.uv), (v(1), v(2), v(3)));
}
