pub mod mesh_loader;
