//! The glTF material file loader.

use vstd::prelude::*;

verus! {

/// Loads materials from glTF files.
pub struct GltfMaterialLoader;

} // verus!
