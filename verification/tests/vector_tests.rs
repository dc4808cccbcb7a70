use gfx_math::index::Axis;
use gfx_math::index::InvalidIndex;
use gfx_math::matrix::Matrix4;
use gfx_math::vector::Vector2;
use gfx_math::vector::Vector3;
use gfx_math::vector::Vector4;

#[test]
fn test_get_index() {
    let vec: Vector4<f32> = Vector4::new(0.0, 1.0, 2.0, 3.0);

    assert_eq!(0.0, vec.get_index(0));
    assert_eq!(1.0, vec.get_index(1));
    assert_eq!(2.0, vec.get_index(2));
    assert_eq!(3.0, vec.get_index(3));
}

#[test]
fn test_as_array() {
    let vec: Vector4<f32> = Vector4::new(0.9, 0.9, 0.9, 0.9);
    let vec_arr = vec.as_array();

    for i in vec_arr {
        assert_eq!(i, 0.9);
    }
}

#[test]
fn test_add_scalar() {
    let mut vec: Vector4<f32> = Vector4::new(0.5, 0.5, 0.6, 0.2);
    vec.add_scalar(2.0);

    let vec = vec.as_array();

    assert_eq!(vec[0], 2.5);
    assert_eq!(vec[1], 2.5);
    assert_eq!(vec[2], 2.6);
    assert_eq!(vec[3], 2.2);
}

#[test]
fn test_subtract_scalar() {
    let mut vec: Vector4<f32> = Vector4::new(1.0, 1.0, 1.0, 1.0);
    vec.subtract_scalar(2.0);

    let vec = vec.as_array();

    for i in vec {
        assert_eq!(i, -1.0);
    }
}

#[test]
fn test_multiply_scalar() {
    let mut vec: Vector4<f32> = Vector4::new(2.0, 2.0, 2.0, 2.0);
    vec.multiply_scalar(0.5);

    let vec = vec.as_array();

    for i in vec {
        assert_eq!(i, 1.0);
    }
}

#[test]
fn test_divide_scalar() {
    let mut vec: Vector4<f32> = Vector4::new(1.0, -3.0, 0.5, 8.0);
    vec.divide_scalar(2.0);

    assert_eq!(vec.as_array(), [0.5, -1.5, 0.25, 4.0]);
}

#[test]
fn test_normalize() {
    let mut vec: Vector4<f32> = Vector4::new(3.0, 5.0, 7.0, 1.0);
    vec.normalize(f32::sqrt);

    assert_eq!((vec.x * 1000000.0).round() / 1000000.0, 0.329293);
    assert_eq!((vec.y * 1000000.0).round() / 1000000.0, 0.548821);
    assert_eq!((vec.z * 100000.0).round() / 100000.0, 0.76835);
}

#[test]
fn test_get_length() {
    let vec: Vector4<f32> = Vector4::new(5.0, 7.0, 3.0, 1.0);
    let length = vec.get_length(f32::sqrt);

    assert_eq!((length * 100000.0).round() / 100000.0, 9.11043);
}

#[test]
fn test_rotate() {
    let mut vec: Vector4<f32> = Vector4::new(5.0, 5.0, 9.0, 1.0);

    vec.rotate(Axis::X, 90.0, f32::cos, f32::sin);
    println!("{:?}", vec);
    assert_eq!(1, 1);
}

#[test]
fn test_create_vec_and_translate() {
    let mut vec: Vector4<f32> = Vector4::new(1.0, 0.0, 0.0, 1.0);

    let id = Matrix4::identity();
    let trans = Matrix4::create_translation(id, Vector3::new(1.0, 1.0, 0.0));

    vec.translate(trans);

    println!("{:?}", vec);

    assert_eq!(vec.x, 2.0);
    assert_eq!(vec.y, 1.0);
    assert_eq!(vec.z, 0.0);
    assert_eq!(vec.w, 1.0);
}

#[test]
fn small_vectors_keep_their_coordinates() {
    let v2: Vector2<f32> = Vector2::new(1.5, -2.0);
    assert_eq!((v2.x, v2.y), (1.5, -2.0));
    let v3: Vector3<f32> = Vector3::new(1.0, 2.0, 3.0);
    assert_eq!((v3.x, v3.y, v3.z), (1.0, 2.0, 3.0));
}

#[test]
fn component_at_answers_for_every_selector() {
    let vec: Vector4<f32> = Vector4::new(0.0, 1.0, 2.0, 3.0);
    assert_eq!(vec.component_at(0), Ok(0.0));
    assert_eq!(vec.component_at(3), Ok(3.0));
    assert_eq!(vec.component_at(4), Err(InvalidIndex { index: 4 }));
    assert_eq!(vec.component_at(usize::MAX), Err(InvalidIndex { index: usize::MAX }));
}

#[test]
fn length_leaves_w_out() {
    let a: Vector4<f32> = Vector4::new(3.0, 4.0, 12.0, 1.0);
    let b: Vector4<f32> = Vector4::new(3.0, 4.0, 12.0, 100.0);
    assert_eq!(a.get_length(f32::sqrt), 13.0);
    assert_eq!(b.get_length(f32::sqrt), 13.0);
}

#[test]
fn length_applies_the_given_root() {
    let a: Vector4<f32> = Vector4::new(3.0, 4.0, 12.0, 1.0);
    assert_eq!(a.get_length(|s| s), 169.0);
}

#[test]
fn normalize_divides_by_the_length_and_keeps_w() {
    let mut vec: Vector4<f32> = Vector4::new(3.0, 4.0, 12.0, 7.0);
    vec.normalize(f32::sqrt);
    assert_eq!(vec.as_array(), [3.0 / 13.0, 4.0 / 13.0, 12.0 / 13.0, 7.0]);
}

#[test]
fn normalizing_a_zero_vector_gives_nan() {
    let mut vec: Vector4<f32> = Vector4::new(0.0, 0.0, 0.0, 1.0);
    vec.normalize(f32::sqrt);
    assert!(vec.x.is_nan());
    assert!(vec.y.is_nan());
    assert!(vec.z.is_nan());
    assert_eq!(vec.w, 1.0);
}

#[test]
fn dividing_by_zero_follows_the_scalar() {
    let mut vec: Vector4<f32> = Vector4::new(1.0, -1.0, 0.0, 2.0);
    vec.divide_scalar(0.0);
    assert_eq!(vec.x, f32::INFINITY);
    assert_eq!(vec.y, f32::NEG_INFINITY);
    assert!(vec.z.is_nan());
    assert_eq!(vec.w, f32::INFINITY);
}

#[test]
fn nan_components_propagate() {
    let mut vec: Vector4<f32> = Vector4::new(f32::NAN, 1.0, 2.0, 3.0);
    vec.add_scalar(1.0);
    assert!(vec.x.is_nan());
    assert_eq!(vec.y, 2.0);
}

#[test]
fn translate_reads_the_vector_as_it_was() {
    // Rows (0,1,0,0), (1,0,0,0), (0,0,1,0), (0,0,0,1): the matrix swaps x and y.
    let swap: Matrix4<f32> = Matrix4::new(
        0.0, 1.0, 0.0, 0.0, 1.0, 0.0, 0.0, 0.0, 0.0, 0.0, 1.0, 0.0, 0.0, 0.0, 0.0, 1.0,
    );
    let mut vec: Vector4<f32> = Vector4::new(2.0, 3.0, 4.0, 1.0);
    vec.translate(swap);
    assert_eq!(vec.as_array(), [3.0, 2.0, 4.0, 1.0]);
}

#[test]
fn translate_multiplies_by_each_row() {
    let m: Matrix4<f32> = Matrix4::new(
        1.0, 5.0, 9.0, 13.0, 2.0, 6.0, 10.0, 14.0, 3.0, 7.0, 11.0, 15.0, 4.0, 8.0, 12.0, 16.0,
    );
    let mut vec: Vector4<f32> = Vector4::new(1.0, 2.0, 3.0, 4.0);
    vec.translate(m);
    assert_eq!(vec.as_array(), [30.0, 70.0, 110.0, 150.0]);
}

fn quarter_cos(_angle: f32) -> f32 {
    0.0
}

fn quarter_sin(_angle: f32) -> f32 {
    1.0
}

#[test]
fn rotate_by_a_quarter_turn_about_each_axis() {
    let mut about_x: Vector4<f32> = Vector4::new(1.0, 2.0, 3.0, 1.0);
    about_x.rotate(Axis::X, 0.0, quarter_cos, quarter_sin);
    assert_eq!(about_x.as_array(), [1.0, -3.0, 2.0, 1.0]);

    let mut about_y: Vector4<f32> = Vector4::new(1.0, 2.0, 3.0, 1.0);
    about_y.rotate(Axis::Y, 0.0, quarter_cos, quarter_sin);
    assert_eq!(about_y.as_array(), [3.0, 2.0, -1.0, 1.0]);

    let mut about_z: Vector4<f32> = Vector4::new(1.0, 2.0, 3.0, 1.0);
    about_z.rotate(Axis::Z, 0.0, quarter_cos, quarter_sin);
    assert_eq!(about_z.as_array(), [-2.0, 1.0, 3.0, 1.0]);
}

#[test]
fn rotate_hands_the_angle_over_unconverted() {
    let mut vec: Vector4<f32> = Vector4::new(1.0, 0.0, 0.0, 1.0);
    vec.rotate(Axis::Z, 90.0, f32::cos, f32::sin);
    assert_eq!(vec.x, 90.0f32.cos());
    assert_eq!(vec.y, 90.0f32.sin());
    assert_eq!(vec.z, 0.0);
    assert_eq!(vec.w, 1.0);
}

#[test]
fn rotate_by_half_pi_turns_x_into_y() {
    let mut vec: Vector4<f32> = Vector4::new(1.0, 0.0, 0.0, 1.0);
    vec.rotate(Axis::Z, std::f32::consts::FRAC_PI_2, f32::cos, f32::sin);
    assert!(vec.x.abs() < 1e-6);
    assert!((vec.y - 1.0).abs() < 1e-6);
    assert_eq!(vec.z, 0.0);
    assert_eq!(vec.w, 1.0);
}
