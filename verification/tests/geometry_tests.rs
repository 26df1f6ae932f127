use scene_object::error::BufferError;
use scene_object::geometry::{expand_vertices, is_aligned, Mesh, Vertex};
use scene_object::pipeline::StepMode;

fn bits(values: &[f32]) -> Vec<u32> {
    values.iter().map(|v| v.to_bits()).collect()
}

#[test]
fn expansion_has_one_vertex_per_position_triple() {
    let positions = bits(&[0.0, 1.0, 2.0, 3.0, 4.0, 5.0, 6.0, 7.0, 8.0]);
    let texcoords = bits(&[0.1, 0.2, 0.3, 0.4, 0.5, 0.6]);
    let normals = bits(&[1.0, 0.0, 0.0, 0.0, 1.0, 0.0, 0.0, 0.0, 1.0]);
    let vertices = expand_vertices(&positions, &texcoords, &normals);
    assert_eq!(vertices.len(), positions.len() / 3);
    assert_eq!(vertices.len(), 3);
}

#[test]
fn expansion_reads_positions_and_normals_at_stride_three_and_texcoords_at_stride_two() {
    let positions = bits(&[0.0, 1.0, 2.0, 3.0, 4.0, 5.0]);
    let texcoords = bits(&[0.25, 0.5, 0.75, 1.0]);
    let normals = bits(&[-1.0, -2.0, -3.0, -4.0, -5.0, -6.0]);
    let vertices = expand_vertices(&positions, &texcoords, &normals);
    assert_eq!(
        vertices,
        vec![
            Vertex {
                position: [0.0f32.to_bits(), 1.0f32.to_bits(), 2.0f32.to_bits()],
                tex_coords: [0.25f32.to_bits(), 0.5f32.to_bits()],
                normal: [(-1.0f32).to_bits(), (-2.0f32).to_bits(), (-3.0f32).to_bits()],
            },
            Vertex {
                position: [3.0f32.to_bits(), 4.0f32.to_bits(), 5.0f32.to_bits()],
                tex_coords: [0.75f32.to_bits(), 1.0f32.to_bits()],
                normal: [(-4.0f32).to_bits(), (-5.0f32).to_bits(), (-6.0f32).to_bits()],
            },
        ]
    );
    for (i, v) in vertices.iter().enumerate() {
        assert_eq!(v.position[..], positions[3 * i..3 * i + 3]);
        assert_eq!(v.tex_coords[..], texcoords[2 * i..2 * i + 2]);
        assert_eq!(v.normal[..], normals[3 * i..3 * i + 3]);
    }
}

#[test]
fn expansion_of_nothing_is_empty() {
    let none: Vec<u32> = Vec::new();
    assert!(is_aligned(&none, &none, &none));
    assert_eq!(expand_vertices(&none, &none, &none), Vec::<Vertex>::new());
}

#[test]
fn alignment_wants_three_two_three_words_per_vertex() {
    let p = bits(&[0.0; 6]);
    let t = bits(&[0.0; 4]);
    let n = bits(&[0.0; 6]);
    assert!(is_aligned(&p, &t, &n));
    // a texture array that is too short, one that is too long
    assert!(!is_aligned(&p, &bits(&[0.0; 2]), &n));
    assert!(!is_aligned(&p, &bits(&[0.0; 6]), &n));
    // missing normals
    assert!(!is_aligned(&p, &t, &Vec::new()));
    assert!(!is_aligned(&p, &t, &bits(&[0.0; 3])));
    // positions that are no whole number of triples
    assert!(!is_aligned(&bits(&[0.0; 4]), &bits(&[0.0; 2]), &bits(&[0.0; 4])));
    assert!(!is_aligned(&bits(&[0.0; 5]), &bits(&[0.0; 3]), &bits(&[0.0; 5])));
}

#[test]
fn mesh_records_its_index_count() {
    let vertices = expand_vertices(
        &bits(&[0.0, 0.0, 0.0, 1.0, 0.0, 0.0, 0.0, 1.0, 0.0]),
        &bits(&[0.0, 0.0, 1.0, 0.0, 0.0, 1.0]),
        &bits(&[0.0, 0.0, 1.0, 0.0, 0.0, 1.0, 0.0, 0.0, 1.0]),
    );
    let mesh: Result<Mesh, BufferError> = Mesh::new(vertices.clone(), vec![0, 1, 2, 2, 1, 0], "tri");
    let mesh = mesh.unwrap();
    assert_eq!(mesh.size, 6);
    assert_eq!(mesh.indices, vec![0, 1, 2, 2, 1, 0]);
    assert_eq!(mesh.vertices, vertices);
    assert_eq!(mesh.name, "tri");
}

#[test]
fn mesh_without_indices_has_size_zero() {
    let mesh = Mesh::new(Vec::new(), Vec::new(), "empty").unwrap();
    assert_eq!(mesh.size, 0);
}

#[test]
fn vertex_layout_is_eight_words_per_vertex() {
    let layout = Vertex::desc();
    assert_eq!(layout.array_stride, 32);
    assert_eq!(layout.array_stride as usize, std::mem::size_of::<Vertex>());
    assert_eq!(layout.step_mode, StepMode::Vertex);
}
