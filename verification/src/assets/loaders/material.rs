pub mod gltf_mat_loader;
