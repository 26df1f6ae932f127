//! Vertex records and sub-mesh geometry.

use crate::error::BufferError;
use crate::pipeline::{StepMode, VertexBufferLayout};
use vstd::prelude::*;
use vstd::string::*;

verus! {

/// One vertex of a sub-mesh. Every component is the bit pattern of a
/// single-precision float.
#[derive(Clone, Copy, Debug, PartialEq, Eq)]
pub struct Vertex {
    pub position: [u32; 3],
    pub tex_coords: [u32; 2],
    pub normal: [u32; 3],
}

/// Size of one vertex in 32-bit words.
pub const VERTEX_WORDS: u64 = 8;

impl Vertex {
    /// Layout of a buffer of vertices: one element per vertex, eight words
    /// apart.
    pub fn desc() -> (layout: VertexBufferLayout)
        ensures
            layout.array_stride == 4 * VERTEX_WORDS,
            layout.step_mode == StepMode::Vertex,
    {
        VertexBufferLayout { array_stride: 4 * VERTEX_WORDS, step_mode: StepMode::Vertex }
    }
}

/// The geometry of one sub-mesh as it is uploaded: its vertices, its 32-bit
/// indices and the number of indices to draw.
#[derive(Clone, Debug, PartialEq, Eq)]
pub struct Mesh {
    pub name: String,
    pub vertices: Vec<Vertex>,
    pub indices: Vec<u32>,
    /// Number of indices, the length of the draw range.
    pub size: u32,
}

/// Mathematical content of a [`Mesh`].
pub ghost struct MeshView {
    pub name: Seq<char>,
    pub vertices: Seq<Vertex>,
    pub indices: Seq<u32>,
    pub size: u32,
}

impl View for Mesh {
    type V = MeshView;

    open spec fn view(&self) -> MeshView {
        MeshView {
            name: self.name@,
            vertices: self.vertices@,
            indices: self.indices@,
            size: self.size,
        }
    }
}

impl MeshView {
    /// The recorded size is the number of indices.
    pub open spec fn well_formed(self) -> bool {
        self.size == self.indices.len()
    }
}

impl Mesh {
    /// Records the geometry of a sub-mesh together with its index count.
    /// Fails when the indices are too many for a 32-bit draw range.
    pub fn new(vertices: Vec<Vertex>, indices: Vec<u32>, name: &str) -> (res: Result<
        Mesh,
        BufferError,
    >)
        ensures
            res is Ok <==> indices@.len() <= u32::MAX,
            res matches Ok(mesh) ==> mesh@ == (MeshView {
                name: name@,
                vertices: vertices@,
                indices: indices@,
                size: indices@.len() as u32,
            }),
            res matches Err(e) ==> e == BufferError::TooLarge,
    {
        let count: usize = indices.len();
        if count > u32::MAX as usize {
            return Err(BufferError::TooLarge);
        }
        Ok(Mesh { name: String::from_str(name), vertices, indices, size: count as u32 })
    }
}

/// The three flat coordinate arrays describe the same number of vertices:
/// three position words, two texture words and three normal words each.
pub open spec fn aligned(positions: Seq<u32>, texcoords: Seq<u32>, normals: Seq<u32>) -> bool {
    &&& positions.len() == normals.len()
    &&& 2 * positions.len() == 3 * texcoords.len()
}

/// Vertex `i` of the expansion: the `i`-th triple of positions and normals
/// and the `i`-th pair of texture coordinates.
pub open spec fn vertex_at(
    positions: Seq<u32>,
    texcoords: Seq<u32>,
    normals: Seq<u32>,
    i: int,
) -> Vertex {
    Vertex {
        position: [positions[3 * i], positions[3 * i + 1], positions[3 * i + 2]],
        tex_coords: [texcoords[2 * i], texcoords[2 * i + 1]],
        normal: [normals[3 * i], normals[3 * i + 1], normals[3 * i + 2]],
    }
}

/// The vertex records of three flat arrays: one per whole position triple.
pub open spec fn expansion(
    positions: Seq<u32>,
    texcoords: Seq<u32>,
    normals: Seq<u32>,
) -> Seq<Vertex> {
    Seq::new(positions.len() / 3, |i: int| vertex_at(positions, texcoords, normals, i))
}

/// Decides whether the three flat arrays are aligned.
pub fn is_aligned(positions: &Vec<u32>, texcoords: &Vec<u32>, normals: &Vec<u32>) -> (ok: bool)
    ensures
        ok == aligned(positions@, texcoords@, normals@),
{
    let p: usize = positions.len();
    let t: usize = texcoords.len();
    positions.len() == normals.len() && p % 3 == 0 && t % 2 == 0 && p / 3 == t / 2
}

/// Zips the flat arrays into vertex records, one per position triple.
pub fn expand_vertices(positions: &Vec<u32>, texcoords: &Vec<u32>, normals: &Vec<u32>) -> (vertices:
    Vec<Vertex>)
    requires
        aligned(positions@, texcoords@, normals@),
    ensures
        vertices@ == expansion(positions@, texcoords@, normals@),
        vertices@.len() == positions@.len() / 3,
{
    let len: usize = positions.len();
    let count: usize = len / 3;
    let mut vertices: Vec<Vertex> = Vec::new();
    let mut i: usize = 0;
    while i < count
        invariant
            aligned(positions@, texcoords@, normals@),
            len == positions@.len(),
            count == len / 3,
            i <= count,
            vertices@.len() == i,
            forall|k: int|
                0 <= k < i ==> #[trigger] vertices@[k] == vertex_at(
                    positions@,
                    texcoords@,
                    normals@,
                    k,
                ),
        decreases count - i,
    {
        proof {
            assert(3 * (i as int) + 3 <= len);
            assert(2 * (i as int) + 2 <= texcoords@.len());
        }
        vertices.push(
            Vertex {
                position: [positions[i * 3], positions[i * 3 + 1], positions[i * 3 + 2]],
                tex_coords: [texcoords[i * 2], texcoords[i * 2 + 1]],
                normal: [normals[i * 3], normals[i * 3 + 1], normals[i * 3 + 2]],
            },
        );
        i += 1;
    }
    assert(vertices@ =~= expansion(positions@, texcoords@, normals@));
    vertices
}

} // verus!
