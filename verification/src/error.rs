//! Errors of loading an object and of sizing its buffers.

use vstd::prelude::*;

verus! {

/// A buffer cannot hold what it is asked to hold.
#[derive(Clone, Copy, Debug, PartialEq, Eq)]
pub enum BufferError {
    /// More elements than a 32-bit draw range or the address space allows.
    TooLarge,
}

/// Why a model could not be turned into an object.
#[derive(Clone, Copy, Debug, PartialEq, Eq)]
pub enum LoadError {
    /// The path of the model file names no containing folder, so texture
    /// paths cannot be resolved.
    NoContainingFolder,
    /// The position, texture and normal arrays of sub-mesh `mesh` do not
    /// describe the same number of vertices.
    MisalignedGeometry { mesh: usize },
    /// Sub-mesh `mesh` has more indices than a draw range can address.
    MeshTooLarge { mesh: usize },
}

} // verus!
