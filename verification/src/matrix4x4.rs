//! Row-major 4x4 matrices over an abstract scalar: constructors for the
//! standard affine and projective maps, the ring operations, and an exact
//! analytic inverse via cofactor expansion.

use vstd::prelude::*;
use crate::scalar::Scalar;
use crate::vector3::Vector3;
use crate::vector4::Vector4;

verus! {

/// A 4x4 matrix stored as four named rows, row-major. It represents an
/// affine or projective linear map on homogeneous coordinates. No invariant
/// is enforced on the contents: a singular matrix is allowed, and `inverse`
/// silently produces junk entries for it (a division by zero in the scalar)
/// rather than raising an error.
#[derive(Clone, Copy, PartialEq, Debug)]
pub struct Matrix4x4<S> {
    pub r0: Vector4<S>,
    pub r1: Vector4<S>,
    pub r2: Vector4<S>,
    pub r3: Vector4<S>,
}

impl<S: Scalar> Matrix4x4<S> {
    /// What `identity` returns.
    pub open spec fn identity_spec() -> Matrix4x4<S> {
        let o = S::one_spec();
        let z = S::zero_spec();
        Matrix4x4 {
            r0: Vector4 { x: o, y: z, z: z, w: z },
            r1: Vector4 { x: z, y: o, z: z, w: z },
            r2: Vector4 { x: z, y: z, z: o, w: z },
            r3: Vector4 { x: z, y: z, z: z, w: o },
        }
    }

    /// The multiplicative identity.
    pub fn identity() -> (r: Matrix4x4<S>)
        ensures
            r == Self::identity_spec(),
    {
        let o = S::one();
        let z = S::zero();
        Matrix4x4 {
            r0: Vector4::new(o, z, z, z),
            r1: Vector4::new(z, o, z, z),
            r2: Vector4::new(z, z, o, z),
            r3: Vector4::new(z, z, z, o),
        }
    }

    /// What `scale` returns.
    pub open spec fn scale_spec(s: Vector3<S>) -> Matrix4x4<S> {
        let o = S::one_spec();
        let z = S::zero_spec();
        Matrix4x4 {
            r0: Vector4 { x: s.x, y: z, z: z, w: z },
            r1: Vector4 { x: z, y: s.y, z: z, w: z },
            r2: Vector4 { x: z, y: z, z: s.z, w: z },
            r3: Vector4 { x: z, y: z, z: z, w: o },
        }
    }

    /// The diagonal scaling map with 1 in the homogeneous corner.
    pub fn scale(s: Vector3<S>) -> (r: Matrix4x4<S>)
        ensures
            r == Self::scale_spec(s),
    {
        let o = S::one();
        let z = S::zero();
        Matrix4x4 {
            r0: Vector4::new(s.x, z, z, z),
            r1: Vector4::new(z, s.y, z, z),
            r2: Vector4::new(z, z, s.z, z),
            r3: Vector4::new(z, z, z, o),
        }
    }

    /// What `translation` returns.
    pub open spec fn translation_spec(t: Vector3<S>) -> Matrix4x4<S> {
        let o = S::one_spec();
        let z = S::zero_spec();
        Matrix4x4 {
            r0: Vector4 { x: o, y: z, z: z, w: t.x },
            r1: Vector4 { x: z, y: o, z: z, w: t.y },
            r2: Vector4 { x: z, y: z, z: o, w: t.z },
            r3: Vector4 { x: z, y: z, z: z, w: o },
        }
    }

    /// The affine translation map: the offset sits in the last column.
    pub fn translation(t: Vector3<S>) -> (r: Matrix4x4<S>)
        ensures
            r == Self::translation_spec(t),
    {
        let o = S::one();
        let z = S::zero();
        Matrix4x4 {
            r0: Vector4::new(o, z, z, t.x),
            r1: Vector4::new(z, o, z, t.y),
            r2: Vector4::new(z, z, o, t.z),
            r3: Vector4::new(z, z, z, o),
        }
    }

    /// What `x_rotation` returns.
    pub open spec fn x_rotation_spec(c: S, s: S) -> Matrix4x4<S> {
        let o = S::one_spec();
        let z = S::zero_spec();
        Matrix4x4 {
            r0: Vector4 { x: o, y: z, z: z, w: z },
            r1: Vector4 { x: z, y: c, z: S::negate_spec(s), w: z },
            r2: Vector4 { x: z, y: s, z: c, w: z },
            r3: Vector4 { x: z, y: z, z: z, w: o },
        }
    }

    /// The right-handed rotation about the x axis, given the cosine and sine
    /// of the rotation angle.
    pub fn x_rotation(c: S, s: S) -> (r: Matrix4x4<S>)
        ensures
            r == Self::x_rotation_spec(c, s),
    {
        let o = S::one();
        let z = S::zero();
        Matrix4x4 {
            r0: Vector4::new(o, z, z, z),
            r1: Vector4::new(z, c, s.negate(), z),
            r2: Vector4::new(z, s, c, z),
            r3: Vector4::new(z, z, z, o),
        }
    }

    /// What `y_rotation` returns.
    pub open spec fn y_rotation_spec(c: S, s: S) -> Matrix4x4<S> {
        let o = S::one_spec();
        let z = S::zero_spec();
        Matrix4x4 {
            r0: Vector4 { x: c, y: z, z: s, w: z },
            r1: Vector4 { x: z, y: o, z: z, w: z },
            r2: Vector4 { x: S::negate_spec(s), y: z, z: c, w: z },
            r3: Vector4 { x: z, y: z, z: z, w: o },
        }
    }

    /// The right-handed rotation about the y axis, given the cosine and sine
    /// of the rotation angle.
    pub fn y_rotation(c: S, s: S) -> (r: Matrix4x4<S>)
        ensures
            r == Self::y_rotation_spec(c, s),
    {
        let o = S::one();
        let z = S::zero();
        Matrix4x4 {
            r0: Vector4::new(c, z, s, z),
            r1: Vector4::new(z, o, z, z),
            r2: Vector4::new(s.negate(), z, c, z),
            r3: Vector4::new(z, z, z, o),
        }
    }

    /// What `z_rotation` returns.
    pub open spec fn z_rotation_spec(c: S, s: S) -> Matrix4x4<S> {
        let o = S::one_spec();
        let z = S::zero_spec();
        Matrix4x4 {
            r0: Vector4 { x: c, y: S::negate_spec(s), z: z, w: z },
            r1: Vector4 { x: s, y: c, z: z, w: z },
            r2: Vector4 { x: z, y: z, z: o, w: z },
            r3: Vector4 { x: z, y: z, z: z, w: o },
        }
    }

    /// The right-handed rotation about the z axis, given the cosine and sine
    /// of the rotation angle.
    pub fn z_rotation(c: S, s: S) -> (r: Matrix4x4<S>)
        ensures
            r == Self::z_rotation_spec(c, s),
    {
        let o = S::one();
        let z = S::zero();
        Matrix4x4 {
            r0: Vector4::new(c, s.negate(), z, z),
            r1: Vector4::new(s, c, z, z),
            r2: Vector4::new(z, z, o, z),
            r3: Vector4::new(z, z, z, o),
        }
    }

    /// What `orthographic_projection_sym` returns.
    pub open spec fn orthographic_projection_sym_spec(
        width: S,
        height: S,
        near: S,
        far: S,
    ) -> Matrix4x4<S> {
        let o = S::one_spec();
        let z = S::zero_spec();
        let two = S::plus_spec(o, o);
        let right = S::divide_spec(width, two);
        let top = S::divide_spec(height, two);
        let depth = S::minus_spec(far, near);
        Matrix4x4 {
            r0: Vector4 { x: S::divide_spec(o, right), y: z, z: z, w: z },
            r1: Vector4 { x: z, y: S::divide_spec(o, top), z: z, w: z },
            r2: Vector4 {
                x: z,
                y: z,
                z: S::divide_spec(S::negate_spec(two), depth),
                w: S::divide_spec(S::negate_spec(S::plus_spec(far, near)), depth),
            },
            r3: Vector4 { x: z, y: z, z: z, w: o },
        }
    }

    /// The OpenGL-style orthographic map of the symmetric box of the given
    /// width and height onto the canonical cube: z lands in [-1, 1].
    pub fn orthographic_projection_sym(width: S, height: S, near: S, far: S) -> (r: Matrix4x4<S>)
        ensures
            r == Self::orthographic_projection_sym_spec(width, height, near, far),
    {
        let o = S::one();
        let z = S::zero();
        let two = o.plus(o);
        let right = width.divide(two);
        let top = height.divide(two);
        let depth = far.minus(near);
        Matrix4x4 {
            r0: Vector4::new(o.divide(right), z, z, z),
            r1: Vector4::new(z, o.divide(top), z, z),
            r2: Vector4::new(
                z,
                z,
                two.negate().divide(depth),
                far.plus(near).negate().divide(depth),
            ),
            r3: Vector4::new(z, z, z, o),
        }
    }

    /// What `orthographic_projection` returns.
    pub open spec fn orthographic_projection_spec(
        left: S,
        right: S,
        bottom: S,
        top: S,
        near: S,
        far: S,
    ) -> Matrix4x4<S> {
        let o = S::one_spec();
        let z = S::zero_spec();
        let two = S::plus_spec(o, o);
        let rl = S::minus_spec(right, left);
        let tb = S::minus_spec(top, bottom);
        let fnr = S::minus_spec(far, near);
        Matrix4x4 {
            r0: Vector4 {
                x: S::divide_spec(two, rl),
                y: z,
                z: z,
                w: S::divide_spec(S::negate_spec(S::plus_spec(right, left)), rl),
            },
            r1: Vector4 {
                x: z,
                y: S::divide_spec(two, tb),
                z: z,
                w: S::divide_spec(S::negate_spec(S::plus_spec(top, bottom)), tb),
            },
            r2: Vector4 {
                x: z,
                y: z,
                z: S::divide_spec(S::negate_spec(two), fnr),
                w: S::divide_spec(S::negate_spec(S::plus_spec(far, near)), fnr),
            },
            r3: Vector4 { x: z, y: z, z: z, w: o },
        }
    }

    /// The general 6-parameter OpenGL-style orthographic map onto the
    /// canonical cube.
    pub fn orthographic_projection(
        left: S,
        right: S,
        bottom: S,
        top: S,
        near: S,
        far: S,
    ) -> (r: Matrix4x4<S>)
        ensures
            r == Self::orthographic_projection_spec(left, right, bottom, top, near, far),
    {
        let o = S::one();
        let z = S::zero();
        let two = o.plus(o);
        let rl = right.minus(left);
        let tb = top.minus(bottom);
        let fnr = far.minus(near);
        Matrix4x4 {
            r0: Vector4::new(two.divide(rl), z, z, right.plus(left).negate().divide(rl)),
            r1: Vector4::new(z, two.divide(tb), z, top.plus(bottom).negate().divide(tb)),
            r2: Vector4::new(
                z,
                z,
                two.negate().divide(fnr),
                far.plus(near).negate().divide(fnr),
            ),
            r3: Vector4::new(z, z, z, o),
        }
    }

    /// What `perspective_projection_sym` returns.
    pub open spec fn perspective_projection_sym_spec(
        width: S,
        height: S,
        near: S,
        far: S,
    ) -> Matrix4x4<S> {
        let o = S::one_spec();
        let z = S::zero_spec();
        let two = S::plus_spec(o, o);
        let right = S::divide_spec(width, two);
        let top = S::divide_spec(height, two);
        let depth = S::minus_spec(far, near);
        Matrix4x4 {
            r0: Vector4 { x: S::divide_spec(near, right), y: z, z: z, w: z },
            r1: Vector4 { x: z, y: S::divide_spec(near, top), z: z, w: z },
            r2: Vector4 {
                x: z,
                y: z,
                z: S::divide_spec(S::negate_spec(S::plus_spec(far, near)), depth),
                w: S::divide_spec(
                    S::times_spec(S::times_spec(S::negate_spec(two), far), near),
                    depth,
                ),
            },
            r3: Vector4 { x: z, y: z, z: S::negate_spec(o), w: z },
        }
    }

    /// The standard perspective map for a symmetric frustum: the camera looks
    /// down -z, so the homogeneous result carries `w = -z`. The depth range
    /// degenerates (a division by zero) when `near == far`; that junk is
    /// passed through silently rather than rejected.
    pub fn perspective_projection_sym(width: S, height: S, near: S, far: S) -> (r: Matrix4x4<S>)
        ensures
            r == Self::perspective_projection_sym_spec(width, height, near, far),
    {
        let o = S::one();
        let z = S::zero();
        let two = o.plus(o);
        let right = width.divide(two);
        let top = height.divide(two);
        let depth = far.minus(near);
        Matrix4x4 {
            r0: Vector4::new(near.divide(right), z, z, z),
            r1: Vector4::new(z, near.divide(top), z, z),
            r2: Vector4::new(
                z,
                z,
                far.plus(near).negate().divide(depth),
                two.negate().times(far).times(near).divide(depth),
            ),
            r3: Vector4::new(z, z, o.negate(), z),
        }
    }

    /// What `perspective_projection` returns.
    pub open spec fn perspective_projection_spec(
        left: S,
        right: S,
        bottom: S,
        top: S,
        near: S,
        far: S,
    ) -> Matrix4x4<S> {
        let o = S::one_spec();
        let z = S::zero_spec();
        let two = S::plus_spec(o, o);
        let rl = S::minus_spec(right, left);
        let tb = S::minus_spec(top, bottom);
        let fnr = S::minus_spec(far, near);
        Matrix4x4 {
            r0: Vector4 {
                x: S::divide_spec(S::times_spec(two, near), rl),
                y: z,
                z: S::divide_spec(S::plus_spec(right, left), rl),
                w: z,
            },
            r1: Vector4 {
                x: z,
                y: S::divide_spec(S::times_spec(two, near), tb),
                z: S::divide_spec(S::plus_spec(top, bottom), tb),
                w: z,
            },
            r2: Vector4 {
                x: z,
                y: z,
                z: S::divide_spec(S::negate_spec(S::plus_spec(far, near)), fnr),
                w: S::divide_spec(
                    S::times_spec(S::times_spec(S::negate_spec(two), far), near),
                    fnr,
                ),
            },
            r3: Vector4 { x: z, y: z, z: S::negate_spec(o), w: z },
        }
    }

    /// The general 6-parameter perspective map, `w = -z` convention.
    pub fn perspective_projection(
        left: S,
        right: S,
        bottom: S,
        top: S,
        near: S,
        far: S,
    ) -> (r: Matrix4x4<S>)
        ensures
            r == Self::perspective_projection_spec(left, right, bottom, top, near, far),
    {
        let o = S::one();
        let z = S::zero();
        let two = o.plus(o);
        let rl = right.minus(left);
        let tb = top.minus(bottom);
        let fnr = far.minus(near);
        Matrix4x4 {
            r0: Vector4::new(two.times(near).divide(rl), z, right.plus(left).divide(rl), z),
            r1: Vector4::new(z, two.times(near).divide(tb), top.plus(bottom).divide(tb), z),
            r2: Vector4::new(
                z,
                z,
                far.plus(near).negate().divide(fnr),
                two.negate().times(far).times(near).divide(fnr),
            ),
            r3: Vector4::new(z, z, o.negate(), z),
        }
    }

    /// What `c0` returns.
    pub open spec fn c0_spec(m: Matrix4x4<S>) -> Vector4<S> {
        Vector4 { x: m.r0.x, y: m.r1.x, z: m.r2.x, w: m.r3.x }
    }

    /// The first column.
    pub fn c0(&self) -> (r: Vector4<S>)
        ensures
            r == Self::c0_spec(*self),
    {
        Vector4::new(self.r0.x, self.r1.x, self.r2.x, self.r3.x)
    }

    /// What `c1` returns.
    pub open spec fn c1_spec(m: Matrix4x4<S>) -> Vector4<S> {
        Vector4 { x: m.r0.y, y: m.r1.y, z: m.r2.y, w: m.r3.y }
    }

    /// The second column.
    pub fn c1(&self) -> (r: Vector4<S>)
        ensures
            r == Self::c1_spec(*self),
    {
        Vector4::new(self.r0.y, self.r1.y, self.r2.y, self.r3.y)
    }

    /// What `c2` returns.
    pub open spec fn c2_spec(m: Matrix4x4<S>) -> Vector4<S> {
        Vector4 { x: m.r0.z, y: m.r1.z, z: m.r2.z, w: m.r3.z }
    }

    /// The third column.
    pub fn c2(&self) -> (r: Vector4<S>)
        ensures
            r == Self::c2_spec(*self),
    {
        Vector4::new(self.r0.z, self.r1.z, self.r2.z, self.r3.z)
    }

    /// What `c3` returns.
    pub open spec fn c3_spec(m: Matrix4x4<S>) -> Vector4<S> {
        Vector4 { x: m.r0.w, y: m.r1.w, z: m.r2.w, w: m.r3.w }
    }

    /// The fourth column.
    pub fn c3(&self) -> (r: Vector4<S>)
        ensures
            r == Self::c3_spec(*self),
    {
        Vector4::new(self.r0.w, self.r1.w, self.r2.w, self.r3.w)
    }

    /// What `add` returns.
    pub open spec fn add_spec(a: Matrix4x4<S>, b: Matrix4x4<S>) -> Matrix4x4<S> {
        Matrix4x4 {
            r0: Vector4::add_spec(a.r0, b.r0),
            r1: Vector4::add_spec(a.r1, b.r1),
            r2: Vector4::add_spec(a.r2, b.r2),
            r3: Vector4::add_spec(a.r3, b.r3),
        }
    }

    /// Componentwise sum.
    pub fn add(&self, other: &Matrix4x4<S>) -> (r: Matrix4x4<S>)
        ensures
            r == Self::add_spec(*self, *other),
    {
        Matrix4x4 {
            r0: self.r0.add(other.r0),
            r1: self.r1.add(other.r1),
            r2: self.r2.add(other.r2),
            r3: self.r3.add(other.r3),
        }
    }

    /// What `sub` returns.
    pub open spec fn sub_spec(a: Matrix4x4<S>, b: Matrix4x4<S>) -> Matrix4x4<S> {
        Matrix4x4 {
            r0: Vector4::sub_spec(a.r0, b.r0),
            r1: Vector4::sub_spec(a.r1, b.r1),
            r2: Vector4::sub_spec(a.r2, b.r2),
            r3: Vector4::sub_spec(a.r3, b.r3),
        }
    }

    /// Componentwise difference.
    pub fn sub(&self, other: &Matrix4x4<S>) -> (r: Matrix4x4<S>)
        ensures
            r == Self::sub_spec(*self, *other),
    {
        Matrix4x4 {
            r0: self.r0.sub(other.r0),
            r1: self.r1.sub(other.r1),
            r2: self.r2.sub(other.r2),
            r3: self.r3.sub(other.r3),
        }
    }

    /// What `mul` returns: the standard row-by-column composition, so that
    /// applying `a.mul(b)` to a vector equals applying `a` after `b`.
    pub open spec fn mul_spec(a: Matrix4x4<S>, b: Matrix4x4<S>) -> Matrix4x4<S> {
        let c0 = Self::c0_spec(b);
        let c1 = Self::c1_spec(b);
        let c2 = Self::c2_spec(b);
        let c3 = Self::c3_spec(b);
        Matrix4x4 {
            r0: Vector4 {
                x: Vector4::dot_spec(a.r0, c0),
                y: Vector4::dot_spec(a.r0, c1),
                z: Vector4::dot_spec(a.r0, c2),
                w: Vector4::dot_spec(a.r0, c3),
            },
            r1: Vector4 {
                x: Vector4::dot_spec(a.r1, c0),
                y: Vector4::dot_spec(a.r1, c1),
                z: Vector4::dot_spec(a.r1, c2),
                w: Vector4::dot_spec(a.r1, c3),
            },
            r2: Vector4 {
                x: Vector4::dot_spec(a.r2, c0),
                y: Vector4::dot_spec(a.r2, c1),
                z: Vector4::dot_spec(a.r2, c2),
                w: Vector4::dot_spec(a.r2, c3),
            },
            r3: Vector4 {
                x: Vector4::dot_spec(a.r3, c0),
                y: Vector4::dot_spec(a.r3, c1),
                z: Vector4::dot_spec(a.r3, c2),
                w: Vector4::dot_spec(a.r3, c3),
            },
        }
    }

    /// Matrix-matrix product.
    pub fn mul(&self, other: &Matrix4x4<S>) -> (r: Matrix4x4<S>)
        ensures
            r == Self::mul_spec(*self, *other),
    {
        let c0 = other.c0();
        let c1 = other.c1();
        let c2 = other.c2();
        let c3 = other.c3();
        Matrix4x4 {
            r0: Vector4::new(self.r0.dot(c0), self.r0.dot(c1), self.r0.dot(c2), self.r0.dot(c3)),
            r1: Vector4::new(self.r1.dot(c0), self.r1.dot(c1), self.r1.dot(c2), self.r1.dot(c3)),
            r2: Vector4::new(self.r2.dot(c0), self.r2.dot(c1), self.r2.dot(c2), self.r2.dot(c3)),
            r3: Vector4::new(self.r3.dot(c0), self.r3.dot(c1), self.r3.dot(c2), self.r3.dot(c3)),
        }
    }

    /// What `mul_scalar` returns.
    pub open spec fn mul_scalar_spec(a: Matrix4x4<S>, s: S) -> Matrix4x4<S> {
        Matrix4x4 {
            r0: Vector4::scale_spec(a.r0, s),
            r1: Vector4::scale_spec(a.r1, s),
            r2: Vector4::scale_spec(a.r2, s),
            r3: Vector4::scale_spec(a.r3, s),
        }
    }

    /// Matrix-scalar product: every entry multiplied by `s`.
    pub fn mul_scalar(&self, s: S) -> (r: Matrix4x4<S>)
        ensures
            r == Self::mul_scalar_spec(*self, s),
    {
        Matrix4x4 {
            r0: self.r0.scale(s),
            r1: self.r1.scale(s),
            r2: self.r2.scale(s),
            r3: self.r3.scale(s),
        }
    }

    /// What `mul_vec` returns: each component the dot of a row with `v`.
    pub open spec fn mul_vec_spec(a: Matrix4x4<S>, v: Vector4<S>) -> Vector4<S> {
        Vector4 {
            x: Vector4::dot_spec(a.r0, v),
            y: Vector4::dot_spec(a.r1, v),
            z: Vector4::dot_spec(a.r2, v),
            w: Vector4::dot_spec(a.r3, v),
        }
    }

    /// Matrix-vector product.
    pub fn mul_vec(&self, v: Vector4<S>) -> (r: Vector4<S>)
        ensures
            r == Self::mul_vec_spec(*self, v),
    {
        Vector4::new(self.r0.dot(v), self.r1.dot(v), self.r2.dot(v), self.r3.dot(v))
    }

    /// What `transform_point` returns: the point as a homogeneous position
    /// vector (`w = 1`) mapped through the matrix, then divided by the
    /// resulting `w` (the perspective divide).
    pub open spec fn transform_point_spec(m: Matrix4x4<S>, p: Vector3<S>) -> Vector3<S> {
        let h = Self::mul_vec_spec(
            m,
            Vector4 { x: p.x, y: p.y, z: p.z, w: S::one_spec() },
        );
        Vector3 {
            x: S::divide_spec(h.x, h.w),
            y: S::divide_spec(h.y, h.w),
            z: S::divide_spec(h.z, h.w),
        }
    }

    /// Map a 3D point through the matrix with homogeneous weight 1 and
    /// perform the perspective divide on the result.
    pub fn transform_point(&self, p: Vector3<S>) -> (r: Vector3<S>)
        ensures
            r == Self::transform_point_spec(*self, p),
    {
        let h = self.mul_vec(Vector4::new(p.x, p.y, p.z, S::one()));
        Vector3::new(h.x.divide(h.w), h.y.divide(h.w), h.z.divide(h.w))
    }

    /// A 2x2 sub-determinant: `a * b - c * d`.
    pub open spec fn det2_spec(a: S, b: S, c: S, d: S) -> S {
        S::minus_spec(S::times_spec(a, b), S::times_spec(c, d))
    }

    /// A first-row cofactor combination: `a * b - c * d + e * f`.
    pub open spec fn cof3_spec(a: S, b: S, c: S, d: S, e: S, f: S) -> S {
        S::plus_spec(Self::det2_spec(a, b, c, d), S::times_spec(e, f))
    }

    /// The determinant, expanded along the first row over the 2x2 minors of
    /// the lower three rows.
    pub open spec fn det_spec(m: Matrix4x4<S>) -> S {
        let a2323 = Self::det2_spec(m.r2.z, m.r3.w, m.r2.w, m.r3.z);
        let a1323 = Self::det2_spec(m.r2.y, m.r3.w, m.r2.w, m.r3.y);
        let a1223 = Self::det2_spec(m.r2.y, m.r3.z, m.r2.z, m.r3.y);
        let a0323 = Self::det2_spec(m.r2.x, m.r3.w, m.r2.w, m.r3.x);
        let a0223 = Self::det2_spec(m.r2.x, m.r3.z, m.r2.z, m.r3.x);
        let a0123 = Self::det2_spec(m.r2.x, m.r3.y, m.r2.y, m.r3.x);
        S::minus_spec(
            S::plus_spec(
                S::minus_spec(
                    S::times_spec(
                        m.r0.x,
                        Self::cof3_spec(m.r1.y, a2323, m.r1.z, a1323, m.r1.w, a1223),
                    ),
                    S::times_spec(
                        m.r0.y,
                        Self::cof3_spec(m.r1.x, a2323, m.r1.z, a0323, m.r1.w, a0223),
                    ),
                ),
                S::times_spec(
                    m.r0.z,
                    Self::cof3_spec(m.r1.x, a1323, m.r1.y, a0323, m.r1.w, a0123),
                ),
            ),
            S::times_spec(
                m.r0.w,
                Self::cof3_spec(m.r1.x, a1223, m.r1.y, a0223, m.r1.z, a0123),
            ),
        )
    }

    /// What `inverse` returns: the adjugate scaled by the reciprocal of the
    /// determinant, assembled from the 18 distinct 2x2 minors.
    pub open spec fn inverse_spec(m: Matrix4x4<S>) -> Matrix4x4<S> {
        let a2323 = Self::det2_spec(m.r2.z, m.r3.w, m.r2.w, m.r3.z);
        let a1323 = Self::det2_spec(m.r2.y, m.r3.w, m.r2.w, m.r3.y);
        let a1223 = Self::det2_spec(m.r2.y, m.r3.z, m.r2.z, m.r3.y);
        let a0323 = Self::det2_spec(m.r2.x, m.r3.w, m.r2.w, m.r3.x);
        let a0223 = Self::det2_spec(m.r2.x, m.r3.z, m.r2.z, m.r3.x);
        let a0123 = Self::det2_spec(m.r2.x, m.r3.y, m.r2.y, m.r3.x);
        let a2313 = Self::det2_spec(m.r1.z, m.r3.w, m.r1.w, m.r3.z);
        let a1313 = Self::det2_spec(m.r1.y, m.r3.w, m.r1.w, m.r3.y);
        let a1213 = Self::det2_spec(m.r1.y, m.r3.z, m.r1.z, m.r3.y);
        let a2312 = Self::det2_spec(m.r1.z, m.r2.w, m.r1.w, m.r2.z);
        let a1312 = Self::det2_spec(m.r1.y, m.r2.w, m.r1.w, m.r2.y);
        let a1212 = Self::det2_spec(m.r1.y, m.r2.z, m.r1.z, m.r2.y);
        let a0313 = Self::det2_spec(m.r1.x, m.r3.w, m.r1.w, m.r3.x);
        let a0213 = Self::det2_spec(m.r1.x, m.r3.z, m.r1.z, m.r3.x);
        let a0312 = Self::det2_spec(m.r1.x, m.r2.w, m.r1.w, m.r2.x);
        let a0212 = Self::det2_spec(m.r1.x, m.r2.z, m.r1.z, m.r2.x);
        let a0113 = Self::det2_spec(m.r1.x, m.r3.y, m.r1.y, m.r3.x);
        let a0112 = Self::det2_spec(m.r1.x, m.r2.y, m.r1.y, m.r2.x);
        let d = S::divide_spec(S::one_spec(), Self::det_spec(m));
        Matrix4x4 {
            r0: Vector4 {
                x: S::times_spec(d, Self::cof3_spec(m.r1.y, a2323, m.r1.z, a1323, m.r1.w, a1223)),
                y: S::times_spec(
                    d,
                    S::negate_spec(Self::cof3_spec(m.r0.y, a2323, m.r0.z, a1323, m.r0.w, a1223)),
                ),
                z: S::times_spec(d, Self::cof3_spec(m.r0.y, a2313, m.r0.z, a1313, m.r0.w, a1213)),
                w: S::times_spec(
                    d,
                    S::negate_spec(Self::cof3_spec(m.r0.y, a2312, m.r0.z, a1312, m.r0.w, a1212)),
                ),
            },
            r1: Vector4 {
                x: S::times_spec(
                    d,
                    S::negate_spec(Self::cof3_spec(m.r1.x, a2323, m.r1.z, a0323, m.r1.w, a0223)),
                ),
                y: S::times_spec(d, Self::cof3_spec(m.r0.x, a2323, m.r0.z, a0323, m.r0.w, a0223)),
                z: S::times_spec(
                    d,
                    S::negate_spec(Self::cof3_spec(m.r0.x, a2313, m.r0.z, a0313, m.r0.w, a0213)),
                ),
                w: S::times_spec(d, Self::cof3_spec(m.r0.x, a2312, m.r0.z, a0312, m.r0.w, a0212)),
            },
            r2: Vector4 {
                x: S::times_spec(d, Self::cof3_spec(m.r1.x, a1323, m.r1.y, a0323, m.r1.w, a0123)),
                y: S::times_spec(
                    d,
                    S::negate_spec(Self::cof3_spec(m.r0.x, a1323, m.r0.y, a0323, m.r0.w, a0123)),
                ),
                z: S::times_spec(d, Self::cof3_spec(m.r0.x, a1313, m.r0.y, a0313, m.r0.w, a0113)),
                w: S::times_spec(
                    d,
                    S::negate_spec(Self::cof3_spec(m.r0.x, a1312, m.r0.y, a0312, m.r0.w, a0112)),
                ),
            },
            r3: Vector4 {
                x: S::times_spec(
                    d,
                    S::negate_spec(Self::cof3_spec(m.r1.x, a1223, m.r1.y, a0223, m.r1.z, a0123)),
                ),
                y: S::times_spec(d, Self::cof3_spec(m.r0.x, a1223, m.r0.y, a0223, m.r0.z, a0123)),
                z: S::times_spec(
                    d,
                    S::negate_spec(Self::cof3_spec(m.r0.x, a1213, m.r0.y, a0213, m.r0.z, a0113)),
                ),
                w: S::times_spec(d, Self::cof3_spec(m.r0.x, a1212, m.r0.y, a0212, m.r0.z, a0112)),
            },
        }
    }

    /// The exact analytic inverse via cofactor expansion. Singularity is not
    /// detected: when the determinant is zero the reciprocal is the scalar's
    /// division-by-zero value and the junk propagates silently.
    pub fn inverse(&self) -> (r: Matrix4x4<S>)
        ensures
            r == Self::inverse_spec(*self),
    {
        let a2323 = det2(self.r2.z, self.r3.w, self.r2.w, self.r3.z);
        let a1323 = det2(self.r2.y, self.r3.w, self.r2.w, self.r3.y);
        let a1223 = det2(self.r2.y, self.r3.z, self.r2.z, self.r3.y);
        let a0323 = det2(self.r2.x, self.r3.w, self.r2.w, self.r3.x);
        let a0223 = det2(self.r2.x, self.r3.z, self.r2.z, self.r3.x);
        let a0123 = det2(self.r2.x, self.r3.y, self.r2.y, self.r3.x);
        let a2313 = det2(self.r1.z, self.r3.w, self.r1.w, self.r3.z);
        let a1313 = det2(self.r1.y, self.r3.w, self.r1.w, self.r3.y);
        let a1213 = det2(self.r1.y, self.r3.z, self.r1.z, self.r3.y);
        let a2312 = det2(self.r1.z, self.r2.w, self.r1.w, self.r2.z);
        let a1312 = det2(self.r1.y, self.r2.w, self.r1.w, self.r2.y);
        let a1212 = det2(self.r1.y, self.r2.z, self.r1.z, self.r2.y);
        let a0313 = det2(self.r1.x, self.r3.w, self.r1.w, self.r3.x);
        let a0213 = det2(self.r1.x, self.r3.z, self.r1.z, self.r3.x);
        let a0312 = det2(self.r1.x, self.r2.w, self.r1.w, self.r2.x);
        let a0212 = det2(self.r1.x, self.r2.z, self.r1.z, self.r2.x);
        let a0113 = det2(self.r1.x, self.r3.y, self.r1.y, self.r3.x);
        let a0112 = det2(self.r1.x, self.r2.y, self.r1.y, self.r2.x);

        let det = self.r0.x.times(cof3(self.r1.y, a2323, self.r1.z, a1323, self.r1.w, a1223)).minus(
            self.r0.y.times(cof3(self.r1.x, a2323, self.r1.z, a0323, self.r1.w, a0223)),
        ).plus(self.r0.z.times(cof3(self.r1.x, a1323, self.r1.y, a0323, self.r1.w, a0123))).minus(
            self.r0.w.times(cof3(self.r1.x, a1223, self.r1.y, a0223, self.r1.z, a0123)),
        );
        let d = S::one().divide(det);

        Matrix4x4 {
            r0: Vector4::new(
                d.times(cof3(self.r1.y, a2323, self.r1.z, a1323, self.r1.w, a1223)),
                d.times(cof3(self.r0.y, a2323, self.r0.z, a1323, self.r0.w, a1223).negate()),
                d.times(cof3(self.r0.y, a2313, self.r0.z, a1313, self.r0.w, a1213)),
                d.times(cof3(self.r0.y, a2312, self.r0.z, a1312, self.r0.w, a1212).negate()),
            ),
            r1: Vector4::new(
                d.times(cof3(self.r1.x, a2323, self.r1.z, a0323, self.r1.w, a0223).negate()),
                d.times(cof3(self.r0.x, a2323, self.r0.z, a0323, self.r0.w, a0223)),
                d.times(cof3(self.r0.x, a2313, self.r0.z, a0313, self.r0.w, a0213).negate()),
                d.times(cof3(self.r0.x, a2312, self.r0.z, a0312, self.r0.w, a0212)),
            ),
            r2: Vector4::new(
                d.times(cof3(self.r1.x, a1323, self.r1.y, a0323, self.r1.w, a0123)),
                d.times(cof3(self.r0.x, a1323, self.r0.y, a0323, self.r0.w, a0123).negate()),
                d.times(cof3(self.r0.x, a1313, self.r0.y, a0313, self.r0.w, a0113)),
                d.times(cof3(self.r0.x, a1312, self.r0.y, a0312, self.r0.w, a0112).negate()),
            ),
            r3: Vector4::new(
                d.times(cof3(self.r1.x, a1223, self.r1.y, a0223, self.r1.z, a0123).negate()),
                d.times(cof3(self.r0.x, a1223, self.r0.y, a0223, self.r0.z, a0123)),
                d.times(cof3(self.r0.x, a1213, self.r0.y, a0213, self.r0.z, a0113).negate()),
                d.times(cof3(self.r0.x, a1212, self.r0.y, a0212, self.r0.z, a0112)),
            ),
        }
    }
}

/// The 2x2 sub-determinant `a * b - c * d`.
fn det2<S: Scalar>(a: S, b: S, c: S, d: S) -> (r: S)
    ensures
        r == Matrix4x4::<S>::det2_spec(a, b, c, d),
{
    a.times(b).minus(c.times(d))
}

/// The cofactor combination `a * b - c * d + e * f`.
fn cof3<S: Scalar>(a: S, b: S, c: S, d: S, e: S, f: S) -> (r: S)
    ensures
        r == Matrix4x4::<S>::cof3_spec(a, b, c, d, e, f),
{
    a.times(b).minus(c.times(d)).plus(e.times(f))
}

} // verus!
