//! Per-placement transforms and their derived model matrices.

use crate::pipeline::{StepMode, VertexBufferLayout};
use vstd::prelude::*;

verus! {

/// Bit pattern of the float `0.0`.
pub const ZERO_BITS: u32 = 0;

/// Bit pattern of the float `1.0`.
pub const ONE_BITS: u32 = 0x3f80_0000;

/// Number of 32-bit words in one model matrix.
pub const MATRIX_WORDS: u64 = 16;

/// A rigid transform: a rotation followed by a translation, no scale.
///
/// The rotation is stored as its 3x3 matrix in column-major order
/// (`rotation[column][row]`), so that deriving the model matrix moves
/// entries and computes nothing.
#[derive(Clone, Copy, Debug, PartialEq, Eq)]
pub struct Isometry {
    pub rotation: [[u32; 3]; 3],
    pub translation: [u32; 3],
}

/// The shader-side data of one instance: its 4x4 model matrix in
/// column-major order (`model[column][row]`).
#[derive(Clone, Copy, Debug, PartialEq, Eq)]
pub struct InstanceUniform {
    pub model: [[u32; 4]; 4],
}

/// One placement of an object in the scene.
#[derive(Clone, Copy, Debug, PartialEq, Eq)]
pub struct Instance {
    pub isometry: Isometry,
    pub uniform: InstanceUniform,
}

/// The homogeneous matrix of a rigid transform: the rotation in the
/// upper-left block, the translation in the last column, and `0 0 0 1` in
/// the last row.
pub open spec fn model_matrix(iso: Isometry) -> [[u32; 4]; 4] {
    let r = iso.rotation;
    let t = iso.translation;
    [
        [r[0][0], r[0][1], r[0][2], ZERO_BITS],
        [r[1][0], r[1][1], r[1][2], ZERO_BITS],
        [r[2][0], r[2][1], r[2][2], ZERO_BITS],
        [t[0], t[1], t[2], ONE_BITS],
    ]
}

/// The transform that leaves everything in place.
pub open spec fn identity_isometry() -> Isometry {
    Isometry {
        rotation: [
            [ONE_BITS, ZERO_BITS, ZERO_BITS],
            [ZERO_BITS, ONE_BITS, ZERO_BITS],
            [ZERO_BITS, ZERO_BITS, ONE_BITS],
        ],
        translation: [ZERO_BITS, ZERO_BITS, ZERO_BITS],
    }
}

/// The sixteen words of a matrix, column after column.
pub open spec fn matrix_words(m: [[u32; 4]; 4]) -> Seq<u32> {
    Seq::new(16, |k: int| m[k / 4][k % 4])
}

/// The instance that places `iso`: the transform with its derived matrix.
pub open spec fn instance_of(iso: Isometry) -> Instance {
    Instance { isometry: iso, uniform: InstanceUniform { model: model_matrix(iso) } }
}

impl Isometry {
    /// The transform that leaves everything in place.
    pub fn identity() -> (iso: Isometry)
        ensures
            iso == identity_isometry(),
    {
        Isometry {
            rotation: [
                [ONE_BITS, ZERO_BITS, ZERO_BITS],
                [ZERO_BITS, ONE_BITS, ZERO_BITS],
                [ZERO_BITS, ZERO_BITS, ONE_BITS],
            ],
            translation: [ZERO_BITS, ZERO_BITS, ZERO_BITS],
        }
    }

    /// Derives the homogeneous 4x4 matrix of this transform.
    pub fn to_homogeneous(&self) -> (m: [[u32; 4]; 4])
        ensures
            m == model_matrix(*self),
    {
        let r = &self.rotation;
        let t = &self.translation;
        [
            [r[0][0], r[0][1], r[0][2], ZERO_BITS],
            [r[1][0], r[1][1], r[1][2], ZERO_BITS],
            [r[2][0], r[2][1], r[2][2], ZERO_BITS],
            [t[0], t[1], t[2], ONE_BITS],
        ]
    }
}

impl Instance {
    /// The stored matrix is the one derived from the stored transform.
    pub open spec fn is_current(&self) -> bool {
        self.uniform.model == model_matrix(self.isometry)
    }

    /// Wraps a transform together with its derived model matrix.
    pub fn new(isometry: Isometry) -> (instance: Instance)
        ensures
            instance == instance_of(isometry),
    {
        Instance { isometry, uniform: InstanceUniform { model: isometry.to_homogeneous() } }
    }

    /// Layout of the instance buffer: one model matrix per instance,
    /// sixteen words apart.
    pub fn desc() -> (layout: VertexBufferLayout)
        ensures
            layout.array_stride == 4 * MATRIX_WORDS,
            layout.step_mode == StepMode::Instance,
    {
        VertexBufferLayout { array_stride: 4 * MATRIX_WORDS, step_mode: StepMode::Instance }
    }

    /// Recomputes the model matrix from the current transform.
    pub fn update(&mut self)
        ensures
            *final(self) == instance_of(old(self).isometry),
    {
        self.uniform.model = self.isometry.to_homogeneous();
    }
}

} // verus!
