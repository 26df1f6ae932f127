//! The parsed content of a model file, as a parser hands it over.

use vstd::prelude::*;

verus! {

/// The flat arrays of one sub-mesh. Positions and normals hold three words
/// per vertex, texture coordinates two.
#[derive(Clone, Debug, PartialEq, Eq)]
pub struct MeshData {
    pub positions: Vec<u32>,
    pub texcoords: Vec<u32>,
    pub normals: Vec<u32>,
    pub indices: Vec<u32>,
}

/// One named sub-mesh of a model file.
#[derive(Clone, Debug, PartialEq, Eq)]
pub struct Model {
    pub name: String,
    pub mesh: MeshData,
}

/// One entry of a model file's material list.
#[derive(Clone, Debug, PartialEq, Eq)]
pub struct MaterialEntry {
    pub name: String,
    /// Path of the diffuse texture, relative to the model file's folder.
    pub diffuse_texture: String,
}

} // verus!
