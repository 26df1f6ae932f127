use scene_object::buffer::{pack, push_matrix};
use scene_object::instance::{Instance, InstanceUniform, Isometry, ONE_BITS, ZERO_BITS};
use scene_object::pipeline::StepMode;

fn rigid(iso: &nalgebra::Isometry3<f32>) -> Isometry {
    let r = iso.rotation.to_rotation_matrix();
    let m = r.matrix();
    let mut rotation = [[0u32; 3]; 3];
    for c in 0..3 {
        for row in 0..3 {
            rotation[c][row] = m[(row, c)].to_bits();
        }
    }
    let t = iso.translation.vector;
    Isometry { rotation, translation: [t[0].to_bits(), t[1].to_bits(), t[2].to_bits()] }
}

fn homogeneous_bits(iso: &nalgebra::Isometry3<f32>) -> [[u32; 4]; 4] {
    let m = iso.to_homogeneous();
    let mut out = [[0u32; 4]; 4];
    for c in 0..4 {
        for row in 0..4 {
            out[c][row] = m[(row, c)].to_bits();
        }
    }
    out
}

#[test]
fn bit_constants_are_zero_and_one() {
    assert_eq!(ZERO_BITS, 0.0f32.to_bits());
    assert_eq!(ONE_BITS, 1.0f32.to_bits());
}

#[test]
fn identity_has_the_identity_matrix() {
    let instance = Instance::new(Isometry::identity());
    let o = 1.0f32.to_bits();
    assert_eq!(
        instance.uniform.model,
        [[o, 0, 0, 0], [0, o, 0, 0], [0, 0, o, 0], [0, 0, 0, o]]
    );
    assert_eq!(instance.isometry, Isometry::identity());
}

#[test]
fn translation_lands_in_the_last_column() {
    let mut iso = Isometry::identity();
    iso.translation = [1.5f32.to_bits(), (-2.0f32).to_bits(), 3.25f32.to_bits()];
    let m = iso.to_homogeneous();
    assert_eq!(m[3], [1.5f32.to_bits(), (-2.0f32).to_bits(), 3.25f32.to_bits(), 1.0f32.to_bits()]);
    assert_eq!(m[0][3], 0);
    assert_eq!(m[1][3], 0);
    assert_eq!(m[2][3], 0);
}

#[test]
fn rotation_fills_the_upper_left_block_column_by_column() {
    let iso = Isometry {
        rotation: [[11, 12, 13], [21, 22, 23], [31, 32, 33]],
        translation: [41, 42, 43],
    };
    assert_eq!(
        iso.to_homogeneous(),
        [[11, 12, 13, 0], [21, 22, 23, 0], [31, 32, 33, 0], [41, 42, 43, ONE_BITS]]
    );
}

#[test]
fn model_matrix_agrees_with_the_homogeneous_matrix_of_an_isometry() {
    let cases = [
        nalgebra::Isometry3::new(
            nalgebra::Vector3::new(1.0f32, 2.0, 3.0),
            nalgebra::Vector3::new(0.3f32, -0.7, 1.1),
        ),
        nalgebra::Isometry3::new(
            nalgebra::Vector3::new(-4.5f32, 0.0, 9.0),
            nalgebra::Vector3::y() * std::f32::consts::FRAC_PI_2,
        ),
        nalgebra::Isometry3::identity(),
    ];
    for iso in cases.iter() {
        let instance = Instance::new(rigid(iso));
        assert_eq!(instance.uniform.model, homogeneous_bits(iso));
    }
}

#[test]
fn update_recomputes_the_matrix_from_the_transform() {
    let mut instance = Instance::new(Isometry::identity());
    instance.isometry.translation = [7, 8, 9];
    assert_eq!(instance.uniform.model[3], [0, 0, 0, ONE_BITS]);
    instance.update();
    assert_eq!(instance.uniform.model[3], [7, 8, 9, ONE_BITS]);
    assert_eq!(instance.isometry.translation, [7, 8, 9]);
    let once = instance;
    instance.update();
    assert_eq!(instance, once);
}

#[test]
fn update_repairs_a_stale_matrix() {
    let iso = Isometry { rotation: [[1, 2, 3], [4, 5, 6], [7, 8, 9]], translation: [10, 11, 12] };
    let mut instance = Instance { isometry: iso, uniform: InstanceUniform { model: [[99; 4]; 4] } };
    instance.update();
    assert_eq!(instance, Instance::new(iso));
}

#[test]
fn instance_layout_is_sixteen_words_per_instance() {
    let layout = Instance::desc();
    assert_eq!(layout.array_stride, 64);
    assert_eq!(layout.array_stride as usize, std::mem::size_of::<InstanceUniform>());
    assert_eq!(layout.step_mode, StepMode::Instance);
}

#[test]
fn a_matrix_is_pushed_column_after_column() {
    let mut words: Vec<u32> = vec![77];
    push_matrix(&mut words, &[[1, 2, 3, 4], [5, 6, 7, 8], [9, 10, 11, 12], [13, 14, 15, 16]]);
    assert_eq!(words, vec![77, 1, 2, 3, 4, 5, 6, 7, 8, 9, 10, 11, 12, 13, 14, 15, 16]);
}

#[test]
fn packing_keeps_the_instance_order() {
    let a = Instance::new(Isometry { rotation: [[1; 3]; 3], translation: [2; 3] });
    let b = Instance::new(Isometry { rotation: [[3; 3]; 3], translation: [4; 3] });
    let words = pack(&vec![a, b]);
    assert_eq!(words.len(), 32);
    assert_eq!(words[..16], [1, 1, 1, 0, 1, 1, 1, 0, 1, 1, 1, 0, 2, 2, 2, ONE_BITS]);
    assert_eq!(words[16..], [3, 3, 3, 0, 3, 3, 3, 0, 3, 3, 3, 0, 4, 4, 4, ONE_BITS]);
    assert_eq!(pack(&Vec::new()), Vec::<u32>::new());
}
