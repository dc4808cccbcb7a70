use gfx_math::dot::multiply_col_with_row;
use gfx_math::matrix::Matrix4;
use gfx_math::vector::Vector3;
use gfx_math::vector::Vector4;

#[test]
fn identity_keeps_a_finite_vector() {
    let mut vec: Vector4<f32> = Vector4::new(1.5, -2.25, 3.0, 1.0);
    vec.translate(Matrix4::identity());
    assert_eq!(vec.as_array(), [1.5, -2.25, 3.0, 1.0]);

    let mut direction: Vector4<f32> = Vector4::new(0.1, 0.2, 0.3, 0.0);
    direction.translate(Matrix4::identity());
    assert_eq!(direction.as_array(), [0.1, 0.2, 0.3, 0.0]);
}

#[test]
fn identity_keeps_an_integer_vector() {
    let mut vec: Vector4<i64> = Vector4::new(7, -8, 9, 1);
    vec.translate(Matrix4::identity());
    assert_eq!(vec.as_array(), [7, -8, 9, 1]);
}

#[test]
fn identity_does_not_keep_an_infinite_component() {
    // Infinity times the zeros of the other rows is not a number.
    let mut vec: Vector4<f32> = Vector4::new(f32::INFINITY, 1.0, 2.0, 1.0);
    vec.translate(Matrix4::identity());
    assert_eq!(vec.x, f32::INFINITY);
    assert!(vec.y.is_nan());
    assert!(vec.z.is_nan());
    assert!(vec.w.is_nan());
}

#[test]
fn dot_with_a_unit_row_picks_one_entry() {
    let v: [f32; 4] = [1.5, 2.5, 3.5, 4.5];
    assert_eq!(multiply_col_with_row(v, [1.0, 0.0, 0.0, 0.0]), 1.5);
    assert_eq!(multiply_col_with_row(v, [0.0, 1.0, 0.0, 0.0]), 2.5);
    assert_eq!(multiply_col_with_row(v, [0.0, 0.0, 1.0, 0.0]), 3.5);
    assert_eq!(multiply_col_with_row(v, [0.0, 0.0, 0.0, 1.0]), 4.5);
}

#[test]
fn dot_of_integers_is_the_sum_of_products() {
    assert_eq!(multiply_col_with_row([1i32, 2, 3, 4], [5, 6, 7, 8]), 70);
    assert_eq!(multiply_col_with_row([1i64, -2, 3, -4], [5, 6, 7, 8]), -18);
}

#[test]
fn translation_moves_points_and_not_directions() {
    let shift = Matrix4::create_translation(Matrix4::identity(), Vector3::new(10.0, 20.0, 30.0));
    let mut point: Vector4<f32> = Vector4::new(1.0, 2.0, 3.0, 1.0);
    point.translate(shift);
    assert_eq!(point.as_array(), [11.0, 22.0, 33.0, 1.0]);

    let mut direction: Vector4<f32> = Vector4::new(1.0, 2.0, 3.0, 0.0);
    direction.translate(shift);
    assert_eq!(direction.as_array(), [1.0, 2.0, 3.0, 0.0]);
}

#[test]
fn integer_matrices_multiply_like_float_ones() {
    let mut m1: Matrix4<i32> = Matrix4::new(2, 1, 6, 1, 3, 2, 7, 2, 4, 3, 8, 3, 5, 4, 9, 4);
    let m2: Matrix4<i32> = Matrix4::new(5, 5, 6, 6, 5, 5, 6, 6, 5, 5, 6, 6, 5, 5, 6, 6);
    m1.multiply_matrix(m2);
    assert_eq!(m1.get_row(0), [79, 79, 79, 79]);
    assert_eq!(m1.get_column(0), [79, 57, 167, 57]);
}
