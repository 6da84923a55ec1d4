pub mod asset_manager;
pub mod loaders;
