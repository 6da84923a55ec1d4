pub mod instance;
pub mod material;
pub mod mesh;
pub mod paths;
pub mod render_batch;
pub mod scene;
pub mod string_map;
pub mod texture;
