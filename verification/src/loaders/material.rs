pub mod gltf_mat_loader;
pub mod mat_loader;
