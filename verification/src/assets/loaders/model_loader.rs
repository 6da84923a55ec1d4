//! Options and results of loading a whole model, and the table of model loaders.

use vstd::prelude::*;
use crate::assets::loaders::common::{MaterialLoadInfo, MeshLoadInfo, TextureLoadInfo};
use crate::common::string_map::StringMap;

verus! {

/// The options applicable to loading a model.
#[derive(Default, Copy, Clone, Debug)]
pub struct ModelLoadOptions {
    /// Whether to load the full mesh.
    pub load_mesh: bool,
    /// Whether to load all materials from the file.
    pub load_materials: bool,
    /// Whether to load all textures from the file.
    pub load_textures: bool,
}

/// Contains the information about the mesh, materials, and textures that this model has
/// loaded. Each kind of information is only loaded if the caller asks for it.
pub struct ModelLoadInfo {
    /// The loaded mesh, if applicable.
    pub mesh: Option<MeshLoadInfo>,
    /// The list of loaded materials, if applicable.
    pub materials: Option<Vec<MaterialLoadInfo>>,
    /// The list of loaded textures, if applicable.
    pub textures: Option<Vec<TextureLoadInfo>>,
}

impl Default for ModelLoadInfo {
    fn default() -> (r: Self)
        ensures
            r.mesh is None,
            r.materials is None,
            r.textures is None,
    {
        ModelLoadInfo { mesh: None, materials: None, textures: None }
    }
}

/// The model file formats a loader exists for.
#[derive(Debug, Clone, Copy, PartialEq, Eq)]
pub enum ModelFileFormat {
    Gltf,
}

/// A model loader that handles loading model information for various file types.
pub struct ModelLoader {
    /// The loaders, keyed by file type extension.
    loaders: StringMap<ModelFileFormat>,
}

impl ModelLoader {
    /// The extensions a loader is registered for.
    pub closed spec fn table(&self) -> Map<Seq<char>, ModelFileFormat> {
        self.loaders@
    }

    /// Creates a new `ModelLoader`, with no loaders registered yet.
    pub fn new() -> (l: Self)
        ensures
            l.table() == Map::<Seq<char>, ModelFileFormat>::empty(),
    {
        Self { loaders: StringMap::new() }
    }
}

} // verus!
