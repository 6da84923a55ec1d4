//! Choosing a mesh loader by file extension, and the geometry a mesh loader gives.

use vstd::prelude::*;
use crate::common::paths::{path_extension, path_extension_spec};
use crate::common::string_map::StringMap;
use crate::naming::opt_string_view;
use crate::gpu::vertex3::Vec3Bits;

verus! {

/// The geometry read from one mesh file.
pub struct MeshInfo {
    /// The mesh's vertices.
    pub vertices: Vec<Vec3Bits>,
    /// The mesh's vertex normals.
    pub normals: Vec<Vec3Bits>,
    /// The mesh's vertex indices.
    pub indices: Vec<u32>,
    /// The texture coordinates. Note that these may also be used on 3D textures.
    pub uvs: Vec<Vec3Bits>,
}

impl MeshInfo {
    /// A mesh with no geometry, to be filled primitive by primitive.
    pub fn empty() -> (m: Self)
        ensures
            m.vertices@.len() == 0,
            m.normals@.len() == 0,
            m.indices@.len() == 0,
            m.uvs@.len() == 0,
    {
        MeshInfo { vertices: Vec::new(), normals: Vec::new(), indices: Vec::new(), uvs: Vec::new() }
    }
}

/// Why no loader could be chosen for a mesh file.
#[derive(Debug)]
pub enum MeshLoaderError {
    /// The file extension is missing.
    MissingExtension,
    /// The extension is not supported.
    ExtensionNotSupported(String),
}

/// The mesh file formats a loader exists for.
#[derive(Debug, Clone, Copy, PartialEq, Eq)]
pub enum MeshFileFormat {
    Gltf,
    Obj,
}

/// What choosing a loader for a file with extension `ext` gives, given the table of
/// supported extensions.
pub open spec fn mesh_loader_choice(
    table: Map<Seq<char>, MeshFileFormat>,
    ext: Option<Seq<char>>,
    r: Result<MeshFileFormat, MeshLoaderError>,
) -> bool {
    match ext {
        None => r matches Err(MeshLoaderError::MissingExtension),
        Some(e) => if table.dom().contains(e) {
            r == Ok::<MeshFileFormat, MeshLoaderError>(table[e])
        } else {
            r matches Err(MeshLoaderError::ExtensionNotSupported(s)) && s@ == e
        },
    }
}

/// A mesh loader that handles multiple different file types. The list of supported file
/// formats follows:
///  - `.gltf` and `.glb`
///  - `.obj`
pub struct MeshLoader {
    loaders: StringMap<MeshFileFormat>,
}

impl MeshLoader {
    /// The supported extensions and the format each is read as.
    pub closed spec fn table(&self) -> Map<Seq<char>, MeshFileFormat> {
        self.loaders@
    }

    /// Creates a new `MeshLoader`, which reads `.gltf`, `.glb` and `.obj` files.
    pub fn new() -> (l: Self)
        ensures
            l.table() == Map::<Seq<char>, MeshFileFormat>::empty()
                .insert("gltf"@, MeshFileFormat::Gltf)
                .insert("glb"@, MeshFileFormat::Gltf)
                .insert("obj"@, MeshFileFormat::Obj),
    {
        let mut loaders = StringMap::new();
        loaders.insert(String::from_str("gltf"), MeshFileFormat::Gltf);
        loaders.insert(String::from_str("glb"), MeshFileFormat::Gltf);
        loaders.insert(String::from_str("obj"), MeshFileFormat::Obj);
        Self { loaders }
    }

    /// The loader for a file whose extension is `ext`.
    pub fn loader_for_extension(&self, ext: Option<String>) -> (r: Result<MeshFileFormat, MeshLoaderError>)
        ensures
            mesh_loader_choice(self.table(), opt_string_view(ext), r),
    {
        match ext {
            None => Err(MeshLoaderError::MissingExtension),
            Some(e) => match self.loaders.get(&e) {
                Some(f) => Ok(*f),
                None => Err(MeshLoaderError::ExtensionNotSupported(e)),
            },
        }
    }

    /// The loader for the mesh file at `path`, chosen by the path's extension. Materials are
    /// not loaded this way.
    pub fn select_loader(&self, path: &str) -> (r: Result<MeshFileFormat, MeshLoaderError>)
        ensures
            mesh_loader_choice(self.table(), path_extension_spec(path@), r),
    {
        let ext = path_extension(path);
        self.loader_for_extension(ext)
    }
}

} // verus!
