//! Scene, mesh and material bookkeeping for a small Vulkan renderer: the registries that
//! place loaded meshes in shared vertex/index buffers, the loaders' format dispatch and
//! index arithmetic, and the decisions the render loop makes.

pub mod assets;
pub mod common;
pub mod context;
pub mod gpu;
pub mod loaders;
pub mod naming;
