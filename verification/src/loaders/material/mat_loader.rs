//! Choosing a material loader by file extension.

use vstd::prelude::*;
use crate::common::paths::{path_extension, path_extension_spec};
use crate::common::string_map::StringMap;
use crate::naming::opt_string_view;

verus! {

/// Contains all information required for the application to load a new material.
pub struct MaterialInfo {
    /// The ID of this material
    pub name: String,
    /// The material uniforms. These should be defined on every imported material.
    pub uniforms: MaterialUniforms,
    /// The ID of the base color map, if any.
    pub base_color_map: Option<String>,
    /// The ID of the roughness map, if any. This is ignored for now.
    pub roughness_map: Option<String>,
    /// The ID of the normal map, if any. This is ignored for now.
    pub normal_map: Option<String>,
}

/// The material uniforms, each `f32` held by its bit pattern. These scale the material's
/// texture maps, if any.
#[derive(Debug, Clone, Copy)]
pub struct MaterialUniforms {
    /// The base color, normalized RGBA.
    pub base_color: [u32; 4],
    /// The metalness factor, between 0 and 1.
    pub metalness_factor: u32,
    /// The roughness factor, between 0 and 1.
    pub roughness_factor: u32,
}

/// Why no loader could be chosen for a material file.
#[derive(Debug)]
pub enum MaterialLoaderError {
    /// The file extension is missing.
    MissingExtension,
    /// The extension is not supported.
    ExtensionNotSupported(String),
}

/// The material file formats a loader exists for.
#[derive(Debug, Clone, Copy, PartialEq, Eq)]
pub enum MaterialFileFormat {
    Gltf,
}

/// What choosing a loader for a file with extension `ext` gives, given the table of
/// supported extensions.
pub open spec fn material_loader_choice(
    table: Map<Seq<char>, MaterialFileFormat>,
    ext: Option<Seq<char>>,
    r: Result<MaterialFileFormat, MaterialLoaderError>,
) -> bool {
    match ext {
        None => r matches Err(MaterialLoaderError::MissingExtension),
        Some(e) => if table.dom().contains(e) {
            r == Ok::<MaterialFileFormat, MaterialLoaderError>(table[e])
        } else {
            r matches Err(MaterialLoaderError::ExtensionNotSupported(s)) && s@ == e
        },
    }
}

/// A material loader that handles multiple different file types.
/// List of supported and planned file formats:
///  - `.gltf`
///  - `.mtl` (planned, not implemented)
pub struct MaterialLoader {
    loaders: StringMap<MaterialFileFormat>,
}

impl MaterialLoader {
    /// The supported extensions and the format each is read as.
    pub closed spec fn table(&self) -> Map<Seq<char>, MaterialFileFormat> {
        self.loaders@
    }

    /// Creates a new `MaterialLoader`, which reads `.gltf` files.
    pub fn new() -> (l: Self)
        ensures
            l.table() == Map::<Seq<char>, MaterialFileFormat>::empty().insert("gltf"@, MaterialFileFormat::Gltf),
    {
        let mut loaders = StringMap::new();
        loaders.insert(String::from_str("gltf"), MaterialFileFormat::Gltf);
        Self { loaders }
    }

    /// The loader for a file whose extension is `ext`.
    pub fn loader_for_extension(&self, ext: Option<String>) -> (r: Result<MaterialFileFormat, MaterialLoaderError>)
        ensures
            material_loader_choice(self.table(), opt_string_view(ext), r),
    {
        match ext {
            None => Err(MaterialLoaderError::MissingExtension),
            Some(e) => match self.loaders.get(&e) {
                Some(f) => Ok(*f),
                None => Err(MaterialLoaderError::ExtensionNotSupported(e)),
            },
        }
    }

    /// The loader for the material file at `path`, chosen by the path's extension. Some
    /// materials are loaded through their mesh's file (glTF embeds materials; OBJ files have
    /// a separate `.mtl` file).
    pub fn select_loader(&self, path: &str) -> (r: Result<MaterialFileFormat, MaterialLoaderError>)
        ensures
            material_loader_choice(self.table(), path_extension_spec(path@), r),
    {
        let ext = path_extension(path);
        self.loader_for_extension(ext)
    }
}

} // verus!
