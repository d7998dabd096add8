//! The kernel instantiated with IEEE-754 single-precision floats: the
//! approximate-identity properties that only make sense over a field, each
//! checked to an element-wise tolerance of about 1e-4.

use scene_math::transform::EulerTrig;
use scene_math::{Camera, Matrix4x4, Scalar, Transform, Vector3, Vector4};

/// A single-precision float as a kernel scalar. Division by zero and the
/// square root of a negative value follow IEEE-754 (infinities and NaNs
/// propagate silently), matching the kernel's permissive philosophy.
#[derive(Clone, Copy, PartialEq, Debug)]
struct F(f32);

impl Scalar for F {
    // The trait's compiled form retains its specification members as
    // ordinary items; they are never called at runtime, so stubs satisfy
    // them here.
    fn zero_spec() -> F {
        unreachable!()
    }

    fn one_spec() -> F {
        unreachable!()
    }

    fn plus_spec(_: F, _: F) -> F {
        unreachable!()
    }

    fn minus_spec(_: F, _: F) -> F {
        unreachable!()
    }

    fn times_spec(_: F, _: F) -> F {
        unreachable!()
    }

    fn divide_spec(_: F, _: F) -> F {
        unreachable!()
    }

    fn negate_spec(_: F) -> F {
        unreachable!()
    }

    fn sqrt_rel(_: F, _: F) -> bool {
        unreachable!()
    }

    fn times_one_identity(_: F) {
    }

    fn times_zero_annihilates(_: F) {
    }

    fn plus_zero_identity(_: F) {
    }

    fn times_associative(_: F, _: F, _: F) {
    }

    fn plus_negate_cancels(_: F) {
    }

    fn divide_one_identity(_: F) {
    }

    fn plus_associative(_: F, _: F, _: F) {
    }

    fn times_plus_distributive(_: F, _: F, _: F) {
    }

    fn plus_commutative(_: F, _: F) {
    }

    fn times_commutative(_: F, _: F) {
    }

    fn times_negate_compatible(_: F, _: F) {
    }

    fn minus_is_plus_negate(_: F, _: F) {
    }

    fn zero() -> F {
        F(0.0)
    }

    fn one() -> F {
        F(1.0)
    }

    fn plus(self, other: F) -> F {
        F(self.0 + other.0)
    }

    fn minus(self, other: F) -> F {
        F(self.0 - other.0)
    }

    fn times(self, other: F) -> F {
        F(self.0 * other.0)
    }

    fn divide(self, other: F) -> F {
        F(self.0 / other.0)
    }

    fn negate(self) -> F {
        F(-self.0)
    }

    fn square_root(self) -> F {
        F(self.0.sqrt())
    }
}

const TOLERANCE: f32 = 1e-4;

fn fv3(x: f32, y: f32, z: f32) -> Vector3<F> {
    Vector3::new(F(x), F(y), F(z))
}

fn assert_close(a: f32, b: f32) {
    assert!((a - b).abs() < TOLERANCE, "{} differs from {} beyond tolerance", a, b);
}

fn assert_mat_close(a: &Matrix4x4<F>, b: &Matrix4x4<F>) {
    let pairs = [
        (a.r0, b.r0),
        (a.r1, b.r1),
        (a.r2, b.r2),
        (a.r3, b.r3),
    ];
    for (ra, rb) in pairs {
        assert_close(ra.x.0, rb.x.0);
        assert_close(ra.y.0, rb.y.0);
        assert_close(ra.z.0, rb.z.0);
        assert_close(ra.w.0, rb.w.0);
    }
}

fn trig_of_degrees(rotation: Vector3<F>) -> EulerTrig<F> {
    let x = rotation.x.0.to_radians();
    let y = rotation.y.0.to_radians();
    let z = rotation.z.0.to_radians();
    EulerTrig {
        cos_x: F(x.cos()),
        sin_x: F(x.sin()),
        cos_y: F(y.cos()),
        sin_y: F(y.sin()),
        cos_z: F(z.cos()),
        sin_z: F(z.sin()),
    }
}

#[test]
fn float_cross_of_x_and_y_axes_is_z_axis() {
    let r = Vector3::cross(fv3(1.0, 0.0, 0.0), fv3(0.0, 1.0, 0.0));
    assert_eq!(r, fv3(0.0, 0.0, 1.0));
}

#[test]
fn float_identity_maps_vectors_unchanged() {
    let v = Vector4::new(F(0.25), F(-3.5), F(7.125), F(1.0));
    assert_eq!(Matrix4x4::identity().mul_vec(v), v);
}

#[test]
fn float_normalized_vector_has_unit_length() {
    let v = Vector4::new(F(3.0), F(4.0), F(12.0), F(0.0));
    let n = v.normalized();
    assert_close(n.length().0, 1.0);
    assert_close(n.x.0, 3.0 / 13.0);
}

#[test]
fn inverse_times_matrix_is_identity_within_tolerance() {
    // A well-conditioned invertible matrix with no special structure.
    let m = Matrix4x4 {
        r0: Vector4::new(F(2.0), F(1.0), F(0.5), F(-1.0)),
        r1: Vector4::new(F(-1.5), F(3.0), F(1.0), F(0.25)),
        r2: Vector4::new(F(0.0), F(-2.0), F(4.0), F(1.0)),
        r3: Vector4::new(F(1.0), F(0.5), F(-1.0), F(2.5)),
    };
    let inv = m.inverse();
    let id = Matrix4x4::identity();
    assert_mat_close(&m.mul(&inv), &id);
    assert_mat_close(&inv.mul(&m), &id);
}

#[test]
fn local_to_world_and_world_to_local_cancel() {
    let mut t: Transform<F> = Transform::new();
    t.set_position(fv3(1.5, -2.25, 3.75));
    t.set_rotation(fv3(30.0, 45.0, 60.0));
    t.set_scale(fv3(2.0, 0.5, 1.25));
    let trig = trig_of_degrees(t.get_rotation());
    let l2w = t.get_local_to_world_matrix(trig);
    let w2l = t.get_world_to_local_matrix(trig);
    let id = Matrix4x4::identity();
    assert_mat_close(&l2w.mul(&w2l), &id);
    assert_mat_close(&w2l.mul(&l2w), &id);
}

#[test]
fn transform_point_round_trips_within_tolerance() {
    let mut t: Transform<F> = Transform::new();
    t.set_position(fv3(-4.0, 2.5, 10.0));
    t.set_rotation(fv3(15.0, -75.0, 120.0));
    t.set_scale(fv3(1.5, 3.0, 0.25));
    let trig = trig_of_degrees(t.get_rotation());
    let p = fv3(0.5, -1.25, 2.0);
    let world = t.transform_point(p, trig);
    let back = t.inv_transform_point(world, trig);
    assert_close(back.x.0, p.x.0);
    assert_close(back.y.0, p.y.0);
    assert_close(back.z.0, p.z.0);
}

#[test]
fn projection_and_inverse_projection_cancel() {
    let mut c: Camera<F> = Camera::new(F(70.0), F(16.0 / 9.0), F(0.1), F(250.0));
    let tan_half_fov = F((70.0f32 / 2.0).to_radians().tan());
    let p = c.get_projection_matrix(tan_half_fov);
    let inv = c.get_inv_projection_matrix(tan_half_fov);
    let id = Matrix4x4::identity();
    assert_mat_close(&p.mul(&inv), &id);
    assert_mat_close(&inv.mul(&p), &id);
}

#[test]
fn camera_maps_clip_planes_to_canonical_depths() {
    let mut c: Camera<F> = Camera::new(F(90.0), F(1.0), F(1.0), F(100.0));
    let tan_half_fov = F((90.0f32 / 2.0).to_radians().tan());
    let near_ndc = c.transform_point(fv3(0.0, 0.0, -1.0), tan_half_fov);
    assert_close(near_ndc.z.0, -1.0);
    let far_ndc = c.transform_point(fv3(0.0, 0.0, -100.0), tan_half_fov);
    assert_close(far_ndc.z.0, 1.0);
}

#[test]
fn camera_round_trips_a_point_through_ndc() {
    let mut c: Camera<F> = Camera::new(F(60.0), F(1.25), F(0.5), F(40.0));
    let tan_half_fov = F((60.0f32 / 2.0).to_radians().tan());
    let p = fv3(0.75, -0.5, -10.0);
    let ndc = c.transform_point(p, tan_half_fov);
    let back = c.inv_transform_point(ndc, tan_half_fov);
    assert_close(back.x.0, p.x.0);
    assert_close(back.y.0, p.y.0);
    assert_close(back.z.0, p.z.0);
}
