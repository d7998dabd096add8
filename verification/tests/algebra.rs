//! Exact tests of the vector/matrix algebra on the verified `i64`
//! instantiation, where every expected value can be computed by hand.

use scene_math::{Matrix4x4, Scalar, Vector3, Vector4};

fn v3(x: i64, y: i64, z: i64) -> Vector3<i64> {
    Vector3::new(x, y, z)
}

fn v4(x: i64, y: i64, z: i64, w: i64) -> Vector4<i64> {
    Vector4::new(x, y, z, w)
}

fn mat(rows: [[i64; 4]; 4]) -> Matrix4x4<i64> {
    Matrix4x4 {
        r0: v4(rows[0][0], rows[0][1], rows[0][2], rows[0][3]),
        r1: v4(rows[1][0], rows[1][1], rows[1][2], rows[1][3]),
        r2: v4(rows[2][0], rows[2][1], rows[2][2], rows[2][3]),
        r3: v4(rows[3][0], rows[3][1], rows[3][2], rows[3][3]),
    }
}

#[test]
fn cross_of_x_and_y_axes_is_z_axis() {
    let r = Vector3::cross(v3(1, 0, 0), v3(0, 1, 0));
    assert_eq!(r, v3(0, 0, 1));
}

#[test]
fn cross_is_anticommutative_on_samples() {
    let a = v3(2, -3, 5);
    let b = v3(7, 1, -4);
    let ab = Vector3::cross(a, b);
    let ba = Vector3::cross(b, a);
    assert_eq!(ab, v3((-3) * (-4) - 5 * 1, 5 * 7 - 2 * (-4), 2 * 1 - (-3) * 7));
    assert_eq!(ba, ab.neg());
}

#[test]
fn vector3_arithmetic_componentwise() {
    let a = v3(1, 2, 3);
    let b = v3(10, 20, 30);
    assert_eq!(a.add(b), v3(11, 22, 33));
    assert_eq!(b.sub(a), v3(9, 18, 27));
    assert_eq!(a.scale(4), v3(4, 8, 12));
    assert_eq!(a.neg(), v3(-1, -2, -3));
    assert_eq!(a.dot(b), 10 + 40 + 90);
    assert_eq!(Vector3::scalar_div(60, v3(2, 3, 4)), v3(30, 20, 15));
}

#[test]
fn vector4_arithmetic_componentwise() {
    let a = v4(1, 2, 3, 4);
    let b = v4(5, 6, 7, 8);
    assert_eq!(a.add(b), v4(6, 8, 10, 12));
    assert_eq!(b.sub(a), v4(4, 4, 4, 4));
    assert_eq!(a.scale(3), v4(3, 6, 9, 12));
    assert_eq!(a.neg(), v4(-1, -2, -3, -4));
    assert_eq!(a.dot(b), 5 + 12 + 21 + 32);
}

#[test]
fn vector4_length_is_integer_square_root() {
    assert_eq!(v4(3, 4, 0, 0).length(), 5);
    assert_eq!(v4(1, 1, 1, 1).length(), 2);
    assert_eq!(v4(0, 0, 0, 0).length(), 0);
}

#[test]
fn vector4_normalized_divides_by_length() {
    // Length 5; the reciprocal 1 / 5 truncates to zero in the integer
    // scalar, so the normalized copy collapses: the junk is exactly the
    // documented reciprocal-scaling behaviour.
    let r = v4(3, 4, 0, 0).normalized();
    assert_eq!(r, v4(0, 0, 0, 0));
}

#[test]
fn scalar_divide_truncates_toward_zero() {
    assert_eq!(7i64.divide(2), 3);
    assert_eq!((-7i64).divide(2), -3);
    assert_eq!(7i64.divide(-2), -3);
    assert_eq!((-7i64).divide(-2), 3);
    assert_eq!(7i64.divide(0), 0);
    assert_eq!(i64::MIN.divide(-1), i64::MIN);
}

#[test]
fn scalar_square_root_is_floor_of_root() {
    assert_eq!(0i64.square_root(), 0);
    assert_eq!(1i64.square_root(), 1);
    assert_eq!(8i64.square_root(), 2);
    assert_eq!(9i64.square_root(), 3);
    assert_eq!(10i64.square_root(), 3);
    assert_eq!((-5i64).square_root(), 0);
    assert_eq!(i64::MAX.square_root(), 3037000499);
}

#[test]
fn identity_maps_vectors_unchanged() {
    let v = v4(5, -3, 7, 2);
    assert_eq!(Matrix4x4::identity().mul_vec(v), v);
    assert_eq!(Matrix4x4::identity().mul_vec(v4(0, 0, 0, 0)), v4(0, 0, 0, 0));
}

#[test]
fn matrix_product_matches_hand_computed_values() {
    let m1 = mat([[1, 2, 3, 4], [5, 6, 7, 8], [9, 10, 11, 12], [13, 14, 15, 16]]);
    let m2 = mat([[17, 18, 19, 20], [21, 22, 23, 24], [25, 26, 27, 28], [29, 30, 31, 32]]);
    let expected = mat([
        [250, 260, 270, 280],
        [618, 644, 670, 696],
        [986, 1028, 1070, 1112],
        [1354, 1412, 1470, 1528],
    ]);
    assert_eq!(m1.mul(&m2), expected);
}

#[test]
fn matrix_add_sub_and_scalar_product() {
    let a = mat([[1, 2, 3, 4], [5, 6, 7, 8], [9, 10, 11, 12], [13, 14, 15, 16]]);
    let b = mat([[16, 15, 14, 13], [12, 11, 10, 9], [8, 7, 6, 5], [4, 3, 2, 1]]);
    let sum = mat([[17; 4]; 4]);
    assert_eq!(a.add(&b), sum);
    assert_eq!(sum.sub(&b), a);
    assert_eq!(
        a.mul_scalar(2),
        mat([[2, 4, 6, 8], [10, 12, 14, 16], [18, 20, 22, 24], [26, 28, 30, 32]])
    );
}

#[test]
fn columns_transpose_the_rows() {
    let a = mat([[1, 2, 3, 4], [5, 6, 7, 8], [9, 10, 11, 12], [13, 14, 15, 16]]);
    assert_eq!(a.c0(), v4(1, 5, 9, 13));
    assert_eq!(a.c1(), v4(2, 6, 10, 14));
    assert_eq!(a.c2(), v4(3, 7, 11, 15));
    assert_eq!(a.c3(), v4(4, 8, 12, 16));
}

#[test]
fn scale_translation_and_rotation_constructors() {
    assert_eq!(
        Matrix4x4::scale(v3(2, 3, 4)),
        mat([[2, 0, 0, 0], [0, 3, 0, 0], [0, 0, 4, 0], [0, 0, 0, 1]])
    );
    assert_eq!(
        Matrix4x4::translation(v3(5, 6, 7)),
        mat([[1, 0, 0, 5], [0, 1, 0, 6], [0, 0, 1, 7], [0, 0, 0, 1]])
    );
    // A quarter turn: cosine 0, sine 1.
    assert_eq!(
        Matrix4x4::z_rotation(0, 1),
        mat([[0, -1, 0, 0], [1, 0, 0, 0], [0, 0, 1, 0], [0, 0, 0, 1]])
    );
    assert_eq!(
        Matrix4x4::x_rotation(0, 1),
        mat([[1, 0, 0, 0], [0, 0, -1, 0], [0, 1, 0, 0], [0, 0, 0, 1]])
    );
    assert_eq!(
        Matrix4x4::y_rotation(0, 1),
        mat([[0, 0, 1, 0], [0, 1, 0, 0], [-1, 0, 0, 0], [0, 0, 0, 1]])
    );
}

#[test]
fn inverse_of_unimodular_matrix_is_exact() {
    // Determinant one: a shear combined with a translation, so the adjugate
    // is integral and the inverse is exact even in integer arithmetic.
    let m = mat([[1, 1, 0, 2], [0, 1, 0, 3], [0, 0, 1, 4], [0, 0, 0, 1]]);
    let inv = m.inverse();
    let id = Matrix4x4::identity();
    assert_eq!(m.mul(&inv), id);
    assert_eq!(inv.mul(&m), id);
}

#[test]
fn inverse_of_translation_negates_the_offset() {
    let m = Matrix4x4::translation(v3(1, 2, 3));
    assert_eq!(m.inverse(), Matrix4x4::translation(v3(-1, -2, -3)));
}

#[test]
fn orthographic_projection_with_exact_entries() {
    // width 4, height 2, near 1, far 3: right 2, top 1, depth 2.
    let m = Matrix4x4::orthographic_projection_sym(4, 2, 1, 3);
    assert_eq!(m, mat([[0, 0, 0, 0], [0, 1, 0, 0], [0, 0, -1, -2], [0, 0, 0, 1]]));
    // The general form with the same box, given by its corners.
    let g = Matrix4x4::orthographic_projection(-2, 2, -1, 1, 1, 3);
    assert_eq!(g, mat([[0, 0, 0, 0], [0, 1, 0, 0], [0, 0, -1, -2], [0, 0, 0, 1]]));
}

#[test]
fn perspective_projection_with_exact_entries() {
    // width 2, height 2, near 1, far 3: right 1, top 1, depth 2.
    let m = Matrix4x4::perspective_projection_sym(2, 2, 1, 3);
    assert_eq!(m, mat([[1, 0, 0, 0], [0, 1, 0, 0], [0, 0, -2, -3], [0, 0, -1, 0]]));
    let g = Matrix4x4::perspective_projection(-1, 1, -1, 1, 1, 3);
    assert_eq!(g, mat([[1, 0, 0, 0], [0, 1, 0, 0], [0, 0, -2, -3], [0, 0, -1, 0]]));
}

#[test]
fn perspective_projection_with_unit_determinant_inverts_exactly() {
    // With near 1 and far -1 the determinant is -1, its own exact
    // reciprocal, so the cofactor inverse is exact even in integers: the
    // projection is its own inverse and the pair composes to the identity.
    let m = Matrix4x4::perspective_projection_sym(2, 2, 1, -1);
    assert_eq!(m, mat([[1, 0, 0, 0], [0, 1, 0, 0], [0, 0, 0, -1], [0, 0, -1, 0]]));
    let inv = m.inverse();
    assert_eq!(inv, m);
    assert_eq!(m.mul(&inv), Matrix4x4::identity());
}

#[test]
fn transform_point_applies_homogeneous_divide() {
    // The perspective matrix above sends the near plane point (0, 0, -1) to
    // z = -1 and the far plane point (0, 0, -3) to z = 1, after the divide.
    let m = Matrix4x4::perspective_projection_sym(2, 2, 1, 3);
    assert_eq!(m.transform_point(v3(0, 0, -1)), v3(0, 0, -1));
    assert_eq!(m.transform_point(v3(0, 0, -3)), v3(0, 0, 1));
}
