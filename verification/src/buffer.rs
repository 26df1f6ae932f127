//! The instance buffer: the model matrices of all instances, packed for
//! upload.

use crate::instance::{matrix_words, Instance};
use vstd::prelude::*;

verus! {

/// The content of the instance buffer as it stands in GPU memory: a label
/// and the matrices of all instances, sixteen words each, in instance order.
#[derive(Clone, Debug, PartialEq, Eq)]
pub struct InstanceBuffer {
    pub label: String,
    pub words: Vec<u32>,
}

/// Mathematical content of an [`InstanceBuffer`].
pub ghost struct InstanceBufferView {
    pub label: Seq<char>,
    pub words: Seq<u32>,
}

impl View for InstanceBuffer {
    type V = InstanceBufferView;

    open spec fn view(&self) -> InstanceBufferView {
        InstanceBufferView { label: self.label@, words: self.words@ }
    }
}

impl InstanceBufferView {
    /// Number of whole matrices in the buffer.
    pub open spec fn entries(self) -> nat {
        self.words.len() / 16
    }
}

/// The words of the model matrices of `instances`, one matrix after the
/// other, each column after column.
pub open spec fn packed(instances: Seq<Instance>) -> Seq<u32> {
    Seq::new(
        16 * instances.len(),
        |k: int| matrix_words(instances[k / 16].uniform.model)[k % 16],
    )
}

/// The bytes that a sequence of 32-bit words occupies in memory, in the
/// byte order of the platform the library is built for.
pub uninterp spec fn memory_image(words: Seq<u32>) -> Seq<u8>;

/// Calls `bytemuck::cast_slice` to view the words as bytes and copies them.
/// The cast keeps the memory as it is, so there are four bytes for every
/// word; which bytes they are is given the name [`memory_image`].
#[verifier::external_body]
pub(crate) fn cast_words(words: &Vec<u32>) -> (bytes: Vec<u8>)
    ensures
        bytes@ == memory_image(words@),
        bytes@.len() == 4 * words@.len(),
{
    bytemuck::cast_slice::<u32, u8>(words.as_slice()).to_vec()
}

/// Appends the sixteen words of a matrix, column after column.
pub fn push_matrix(words: &mut Vec<u32>, m: &[[u32; 4]; 4])
    ensures
        final(words)@ == old(words)@ + matrix_words(*m),
{
    let mut column: usize = 0;
    while column < 4
        invariant
            column <= 4,
            words@.len() == old(words)@.len() + 4 * column,
            words@ == old(words)@ + matrix_words(*m).subrange(0, 4 * column as int),
        decreases 4 - column,
    {
        let c = &m[column];
        words.push(c[0]);
        words.push(c[1]);
        words.push(c[2]);
        words.push(c[3]);
        assert(words@ =~= old(words)@ + matrix_words(*m).subrange(0, 4 * (column + 1) as int));
        column += 1;
    }
    assert(matrix_words(*m).subrange(0, 16) =~= matrix_words(*m));
}

/// Packs the model matrices of all instances, in order.
pub fn pack(instances: &Vec<Instance>) -> (words: Vec<u32>)
    ensures
        words@ == packed(instances@),
{
    let mut words: Vec<u32> = Vec::new();
    let mut i: usize = 0;
    while i < instances.len()
        invariant
            i <= instances@.len(),
            words@ == packed(instances@.subrange(0, i as int)),
        decreases instances@.len() - i,
    {
        push_matrix(&mut words, &instances[i].uniform.model);
        assert(words@ =~= packed(instances@.subrange(0, i + 1)));
        i += 1;
    }
    assert(instances@.subrange(0, i as int) =~= instances@);
    words
}

} // verus!
