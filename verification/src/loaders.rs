pub mod gltf_loader;
pub mod material;
pub mod mesh;
pub mod obj_loader;
