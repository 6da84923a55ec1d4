pub mod common;
pub mod gltf_loader;
pub mod material;
pub mod model_loader;
pub mod obj_loader;
