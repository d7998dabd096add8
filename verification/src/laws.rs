//! Algebraic laws of the kernel, proved for every scalar instantiation from
//! the obligations the [`crate::scalar::Scalar`] trait imposes.

use vstd::prelude::*;
use crate::scalar::Scalar;
use crate::vector3::Vector3;
use crate::vector4::Vector4;
use crate::matrix4x4::Matrix4x4;
use crate::transform::{EulerTrig, Transform};
use crate::camera::Camera;

verus! {

/// The identity matrix maps every vector to itself: for any `v`,
/// `Matrix4x4::identity().mul_vec(v)` returns `v` unchanged. Each component
/// reduces through one multiplication by one, three multiplications by zero,
/// and three additions of zero.
pub proof fn lemma_identity_mul_vec<S: Scalar>(v: Vector4<S>)
    ensures
        Matrix4x4::mul_vec_spec(Matrix4x4::identity_spec(), v) == v,
{
    S::times_one_identity(v.x);
    S::times_one_identity(v.y);
    S::times_one_identity(v.z);
    S::times_one_identity(v.w);
    S::times_zero_annihilates(v.x);
    S::times_zero_annihilates(v.y);
    S::times_zero_annihilates(v.z);
    S::times_zero_annihilates(v.w);
    S::plus_zero_identity(v.x);
    S::plus_zero_identity(v.y);
    S::plus_zero_identity(v.z);
    S::plus_zero_identity(v.w);
    S::plus_zero_identity(S::zero_spec());
}

/// A dot product against a standard basis row or column picks out one
/// component: with exactly one factor one and the rest zero, the sum
/// collapses to the component the one selects.
proof fn lemma_dot_with_unit<S: Scalar>(v: Vector4<S>)
    ensures
        Vector4::dot_spec(
            Vector4 {
                x: S::one_spec(),
                y: S::zero_spec(),
                z: S::zero_spec(),
                w: S::zero_spec(),
            },
            v,
        ) == v.x,
        Vector4::dot_spec(
            Vector4 {
                x: S::zero_spec(),
                y: S::one_spec(),
                z: S::zero_spec(),
                w: S::zero_spec(),
            },
            v,
        ) == v.y,
        Vector4::dot_spec(
            Vector4 {
                x: S::zero_spec(),
                y: S::zero_spec(),
                z: S::one_spec(),
                w: S::zero_spec(),
            },
            v,
        ) == v.z,
        Vector4::dot_spec(
            Vector4 {
                x: S::zero_spec(),
                y: S::zero_spec(),
                z: S::zero_spec(),
                w: S::one_spec(),
            },
            v,
        ) == v.w,
        Vector4::dot_spec(
            v,
            Vector4 {
                x: S::one_spec(),
                y: S::zero_spec(),
                z: S::zero_spec(),
                w: S::zero_spec(),
            },
        ) == v.x,
        Vector4::dot_spec(
            v,
            Vector4 {
                x: S::zero_spec(),
                y: S::one_spec(),
                z: S::zero_spec(),
                w: S::zero_spec(),
            },
        ) == v.y,
        Vector4::dot_spec(
            v,
            Vector4 {
                x: S::zero_spec(),
                y: S::zero_spec(),
                z: S::one_spec(),
                w: S::zero_spec(),
            },
        ) == v.z,
        Vector4::dot_spec(
            v,
            Vector4 {
                x: S::zero_spec(),
                y: S::zero_spec(),
                z: S::zero_spec(),
                w: S::one_spec(),
            },
        ) == v.w,
{
    S::times_one_identity(v.x);
    S::times_one_identity(v.y);
    S::times_one_identity(v.z);
    S::times_one_identity(v.w);
    S::times_zero_annihilates(v.x);
    S::times_zero_annihilates(v.y);
    S::times_zero_annihilates(v.z);
    S::times_zero_annihilates(v.w);
    S::plus_zero_identity(v.x);
    S::plus_zero_identity(v.y);
    S::plus_zero_identity(v.z);
    S::plus_zero_identity(v.w);
    S::plus_zero_identity(S::zero_spec());
}

/// The identity matrix is a left identity of the matrix product.
pub proof fn lemma_identity_mul_left<S: Scalar>(m: Matrix4x4<S>)
    ensures
        Matrix4x4::mul_spec(Matrix4x4::identity_spec(), m) == m,
{
    lemma_dot_with_unit(Matrix4x4::c0_spec(m));
    lemma_dot_with_unit(Matrix4x4::c1_spec(m));
    lemma_dot_with_unit(Matrix4x4::c2_spec(m));
    lemma_dot_with_unit(Matrix4x4::c3_spec(m));
}

/// The identity matrix is a right identity of the matrix product.
pub proof fn lemma_identity_mul_right<S: Scalar>(m: Matrix4x4<S>)
    ensures
        Matrix4x4::mul_spec(m, Matrix4x4::identity_spec()) == m,
{
    lemma_dot_with_unit(m.r0);
    lemma_dot_with_unit(m.r1);
    lemma_dot_with_unit(m.r2);
    lemma_dot_with_unit(m.r3);
}

/// The unit facts about one scalar value, bundled.
proof fn lemma_scalar_units<S: Scalar>(a: S)
    ensures
        S::times_spec(S::one_spec(), a) == a,
        S::times_spec(a, S::one_spec()) == a,
        S::times_spec(S::zero_spec(), a) == S::zero_spec(),
        S::times_spec(a, S::zero_spec()) == S::zero_spec(),
        S::plus_spec(a, S::zero_spec()) == a,
        S::plus_spec(S::zero_spec(), a) == a,
{
    S::times_one_identity(a);
    S::times_zero_annihilates(a);
    S::plus_zero_identity(a);
}

/// The middle terms of a balanced four-term sum can be exchanged:
/// `(p + q) + (r + t) == (p + r) + (q + t)`.
proof fn lemma_plus_exchange<S: Scalar>(p: S, q: S, r: S, t: S)
    ensures
        S::plus_spec(S::plus_spec(p, q), S::plus_spec(r, t)) == S::plus_spec(
            S::plus_spec(p, r),
            S::plus_spec(q, t),
        ),
{
    S::plus_associative(p, q, S::plus_spec(r, t));
    S::plus_associative(q, r, t);
    S::plus_commutative(q, r);
    S::plus_associative(r, q, t);
    S::plus_associative(p, r, S::plus_spec(q, t));
}

/// Left-to-right four-term sums regroup into balanced pairs.
proof fn lemma_sum4_balance<S: Scalar>(a: S, b: S, c: S, d: S)
    ensures
        S::plus_spec(S::plus_spec(S::plus_spec(a, b), c), d) == S::plus_spec(
            S::plus_spec(a, b),
            S::plus_spec(c, d),
        ),
{
    S::plus_associative(S::plus_spec(a, b), c, d);
}

/// A four-by-four grid of terms sums to the same value whether it is added
/// up row by row or column by column.
proof fn lemma_sum4x4_transpose<S: Scalar>(
    t00: S, t01: S, t02: S, t03: S,
    t10: S, t11: S, t12: S, t13: S,
    t20: S, t21: S, t22: S, t23: S,
    t30: S, t31: S, t32: S, t33: S,
)
    ensures
        S::plus_spec(
            S::plus_spec(
                S::plus_spec(
                    S::plus_spec(S::plus_spec(S::plus_spec(t00, t01), t02), t03),
                    S::plus_spec(S::plus_spec(S::plus_spec(t10, t11), t12), t13),
                ),
                S::plus_spec(S::plus_spec(S::plus_spec(t20, t21), t22), t23),
            ),
            S::plus_spec(S::plus_spec(S::plus_spec(t30, t31), t32), t33),
        ) == S::plus_spec(
            S::plus_spec(
                S::plus_spec(
                    S::plus_spec(S::plus_spec(S::plus_spec(t00, t10), t20), t30),
                    S::plus_spec(S::plus_spec(S::plus_spec(t01, t11), t21), t31),
                ),
                S::plus_spec(S::plus_spec(S::plus_spec(t02, t12), t22), t32),
            ),
            S::plus_spec(S::plus_spec(S::plus_spec(t03, t13), t23), t33),
        ),
{
    // Balance every row sum, every column sum, and the two outer sums.
    lemma_sum4_balance(t00, t01, t02, t03);
    lemma_sum4_balance(t10, t11, t12, t13);
    lemma_sum4_balance(t20, t21, t22, t23);
    lemma_sum4_balance(t30, t31, t32, t33);
    lemma_sum4_balance(t00, t10, t20, t30);
    lemma_sum4_balance(t01, t11, t21, t31);
    lemma_sum4_balance(t02, t12, t22, t32);
    lemma_sum4_balance(t03, t13, t23, t33);
    let r0 = S::plus_spec(S::plus_spec(S::plus_spec(t00, t01), t02), t03);
    let r1 = S::plus_spec(S::plus_spec(S::plus_spec(t10, t11), t12), t13);
    let r2 = S::plus_spec(S::plus_spec(S::plus_spec(t20, t21), t22), t23);
    let r3 = S::plus_spec(S::plus_spec(S::plus_spec(t30, t31), t32), t33);
    lemma_sum4_balance(r0, r1, r2, r3);
    let c0 = S::plus_spec(S::plus_spec(S::plus_spec(t00, t10), t20), t30);
    let c1 = S::plus_spec(S::plus_spec(S::plus_spec(t01, t11), t21), t31);
    let c2 = S::plus_spec(S::plus_spec(S::plus_spec(t02, t12), t22), t32);
    let c3 = S::plus_spec(S::plus_spec(S::plus_spec(t03, t13), t23), t33);
    lemma_sum4_balance(c0, c1, c2, c3);

    // Exchange half-row against half-row, then block against block, and
    // the half-column pairs fall out.
    let b0 = S::plus_spec(t00, t01);
    let e0 = S::plus_spec(t02, t03);
    let b1 = S::plus_spec(t10, t11);
    let e1 = S::plus_spec(t12, t13);
    let b2 = S::plus_spec(t20, t21);
    let e2 = S::plus_spec(t22, t23);
    let b3 = S::plus_spec(t30, t31);
    let e3 = S::plus_spec(t32, t33);
    lemma_plus_exchange(b0, e0, b1, e1);
    lemma_plus_exchange(b2, e2, b3, e3);
    lemma_plus_exchange(
        S::plus_spec(b0, b1),
        S::plus_spec(e0, e1),
        S::plus_spec(b2, b3),
        S::plus_spec(e2, e3),
    );
    lemma_plus_exchange(t00, t01, t10, t11);
    lemma_plus_exchange(t20, t21, t30, t31);
    lemma_plus_exchange(t02, t03, t12, t13);
    lemma_plus_exchange(t22, t23, t32, t33);
    lemma_plus_exchange(
        S::plus_spec(t00, t10),
        S::plus_spec(t01, t11),
        S::plus_spec(t20, t30),
        S::plus_spec(t21, t31),
    );
    lemma_plus_exchange(
        S::plus_spec(t02, t12),
        S::plus_spec(t03, t13),
        S::plus_spec(t22, t32),
        S::plus_spec(t23, t33),
    );
}

/// The right-distributive law, derived from commutativity and the left
/// distributive obligation.
proof fn lemma_right_distributive<S: Scalar>(a: S, b: S, c: S)
    ensures
        S::times_spec(S::plus_spec(a, b), c) == S::plus_spec(
            S::times_spec(a, c),
            S::times_spec(b, c),
        ),
{
    S::times_commutative(S::plus_spec(a, b), c);
    S::times_plus_distributive(c, a, b);
    S::times_commutative(c, a);
    S::times_commutative(c, b);
}

/// A dot product scaled on the right distributes into a four-term sum of
/// reassociated triple products.
proof fn lemma_dot_times_scalar<S: Scalar>(u: Vector4<S>, col: Vector4<S>, k: S)
    ensures
        S::times_spec(Vector4::dot_spec(u, col), k) == S::plus_spec(
            S::plus_spec(
                S::plus_spec(
                    S::times_spec(u.x, S::times_spec(col.x, k)),
                    S::times_spec(u.y, S::times_spec(col.y, k)),
                ),
                S::times_spec(u.z, S::times_spec(col.z, k)),
            ),
            S::times_spec(u.w, S::times_spec(col.w, k)),
        ),
{
    let m0 = S::times_spec(u.x, col.x);
    let m1 = S::times_spec(u.y, col.y);
    let m2 = S::times_spec(u.z, col.z);
    let m3 = S::times_spec(u.w, col.w);
    lemma_right_distributive(S::plus_spec(S::plus_spec(m0, m1), m2), m3, k);
    lemma_right_distributive(S::plus_spec(m0, m1), m2, k);
    lemma_right_distributive(m0, m1, k);
    S::times_associative(u.x, col.x, k);
    S::times_associative(u.y, col.y, k);
    S::times_associative(u.z, col.z, k);
    S::times_associative(u.w, col.w, k);
}

/// A scalar times a dot product distributes into a four-term sum of triple
/// products.
proof fn lemma_scalar_times_dot<S: Scalar>(a: S, row: Vector4<S>, v: Vector4<S>)
    ensures
        S::times_spec(a, Vector4::dot_spec(row, v)) == S::plus_spec(
            S::plus_spec(
                S::plus_spec(
                    S::times_spec(a, S::times_spec(row.x, v.x)),
                    S::times_spec(a, S::times_spec(row.y, v.y)),
                ),
                S::times_spec(a, S::times_spec(row.z, v.z)),
            ),
            S::times_spec(a, S::times_spec(row.w, v.w)),
        ),
{
    let p0 = S::times_spec(row.x, v.x);
    let p1 = S::times_spec(row.y, v.y);
    let p2 = S::times_spec(row.z, v.z);
    let p3 = S::times_spec(row.w, v.w);
    S::times_plus_distributive(a, S::plus_spec(S::plus_spec(p0, p1), p2), p3);
    S::times_plus_distributive(a, S::plus_spec(p0, p1), p2);
    S::times_plus_distributive(a, p0, p1);
}

/// The two ways of associating a row-matrix-vector product agree: dotting
/// the row of column dot products with `v` equals dotting `u` with the
/// matrix-vector product. This is the entrywise heart of the associativity
/// of matrix composition.
proof fn lemma_dot_mul_vec_associative<S: Scalar>(u: Vector4<S>, b: Matrix4x4<S>, v: Vector4<S>)
    ensures
        Vector4::dot_spec(
            Vector4 {
                x: Vector4::dot_spec(u, Matrix4x4::c0_spec(b)),
                y: Vector4::dot_spec(u, Matrix4x4::c1_spec(b)),
                z: Vector4::dot_spec(u, Matrix4x4::c2_spec(b)),
                w: Vector4::dot_spec(u, Matrix4x4::c3_spec(b)),
            },
            v,
        ) == Vector4::dot_spec(u, Matrix4x4::mul_vec_spec(b, v)),
{
    lemma_dot_times_scalar(u, Matrix4x4::c0_spec(b), v.x);
    lemma_dot_times_scalar(u, Matrix4x4::c1_spec(b), v.y);
    lemma_dot_times_scalar(u, Matrix4x4::c2_spec(b), v.z);
    lemma_dot_times_scalar(u, Matrix4x4::c3_spec(b), v.w);
    lemma_scalar_times_dot(u.x, b.r0, v);
    lemma_scalar_times_dot(u.y, b.r1, v);
    lemma_scalar_times_dot(u.z, b.r2, v);
    lemma_scalar_times_dot(u.w, b.r3, v);
    lemma_sum4x4_transpose(
        S::times_spec(u.x, S::times_spec(b.r0.x, v.x)),
        S::times_spec(u.x, S::times_spec(b.r0.y, v.y)),
        S::times_spec(u.x, S::times_spec(b.r0.z, v.z)),
        S::times_spec(u.x, S::times_spec(b.r0.w, v.w)),
        S::times_spec(u.y, S::times_spec(b.r1.x, v.x)),
        S::times_spec(u.y, S::times_spec(b.r1.y, v.y)),
        S::times_spec(u.y, S::times_spec(b.r1.z, v.z)),
        S::times_spec(u.y, S::times_spec(b.r1.w, v.w)),
        S::times_spec(u.z, S::times_spec(b.r2.x, v.x)),
        S::times_spec(u.z, S::times_spec(b.r2.y, v.y)),
        S::times_spec(u.z, S::times_spec(b.r2.z, v.z)),
        S::times_spec(u.z, S::times_spec(b.r2.w, v.w)),
        S::times_spec(u.w, S::times_spec(b.r3.x, v.x)),
        S::times_spec(u.w, S::times_spec(b.r3.y, v.y)),
        S::times_spec(u.w, S::times_spec(b.r3.z, v.z)),
        S::times_spec(u.w, S::times_spec(b.r3.w, v.w)),
    );
}

/// Matrix composition is associative.
pub proof fn lemma_mul_associative<S: Scalar>(a: Matrix4x4<S>, b: Matrix4x4<S>, c: Matrix4x4<S>)
    ensures
        Matrix4x4::mul_spec(Matrix4x4::mul_spec(a, b), c) == Matrix4x4::mul_spec(
            a,
            Matrix4x4::mul_spec(b, c),
        ),
{
    lemma_dot_mul_vec_associative(a.r0, b, Matrix4x4::c0_spec(c));
    lemma_dot_mul_vec_associative(a.r0, b, Matrix4x4::c1_spec(c));
    lemma_dot_mul_vec_associative(a.r0, b, Matrix4x4::c2_spec(c));
    lemma_dot_mul_vec_associative(a.r0, b, Matrix4x4::c3_spec(c));
    lemma_dot_mul_vec_associative(a.r1, b, Matrix4x4::c0_spec(c));
    lemma_dot_mul_vec_associative(a.r1, b, Matrix4x4::c1_spec(c));
    lemma_dot_mul_vec_associative(a.r1, b, Matrix4x4::c2_spec(c));
    lemma_dot_mul_vec_associative(a.r1, b, Matrix4x4::c3_spec(c));
    lemma_dot_mul_vec_associative(a.r2, b, Matrix4x4::c0_spec(c));
    lemma_dot_mul_vec_associative(a.r2, b, Matrix4x4::c1_spec(c));
    lemma_dot_mul_vec_associative(a.r2, b, Matrix4x4::c2_spec(c));
    lemma_dot_mul_vec_associative(a.r2, b, Matrix4x4::c3_spec(c));
    lemma_dot_mul_vec_associative(a.r3, b, Matrix4x4::c0_spec(c));
    lemma_dot_mul_vec_associative(a.r3, b, Matrix4x4::c1_spec(c));
    lemma_dot_mul_vec_associative(a.r3, b, Matrix4x4::c2_spec(c));
    lemma_dot_mul_vec_associative(a.r3, b, Matrix4x4::c3_spec(c));
}

/// Matrix-vector application respects composition: applying a product
/// matrix equals applying the right factor and then the left.
pub proof fn lemma_mul_vec_associative<S: Scalar>(
    a: Matrix4x4<S>,
    b: Matrix4x4<S>,
    v: Vector4<S>,
)
    ensures
        Matrix4x4::mul_vec_spec(Matrix4x4::mul_spec(a, b), v) == Matrix4x4::mul_vec_spec(
            a,
            Matrix4x4::mul_vec_spec(b, v),
        ),
{
    lemma_dot_mul_vec_associative(a.r0, b, v);
    lemma_dot_mul_vec_associative(a.r1, b, v);
    lemma_dot_mul_vec_associative(a.r2, b, v);
    lemma_dot_mul_vec_associative(a.r3, b, v);
}

/// Two diagonal scale maps whose factors multiply to one componentwise
/// cancel to the identity.
proof fn lemma_scale_pair_cancels<S: Scalar>(a: Vector3<S>, b: Vector3<S>)
    requires
        S::times_spec(a.x, b.x) == S::one_spec(),
        S::times_spec(a.y, b.y) == S::one_spec(),
        S::times_spec(a.z, b.z) == S::one_spec(),
    ensures
        Matrix4x4::mul_spec(Matrix4x4::scale_spec(a), Matrix4x4::scale_spec(b))
            == Matrix4x4::<S>::identity_spec(),
{
    lemma_scalar_units(a.x);
    lemma_scalar_units(a.y);
    lemma_scalar_units(a.z);
    lemma_scalar_units(b.x);
    lemma_scalar_units(b.y);
    lemma_scalar_units(b.z);
    lemma_scalar_units(S::zero_spec());
    lemma_scalar_units(S::one_spec());
}

/// A translation and the translation by the negated offset cancel to the
/// identity.
proof fn lemma_translation_pair_cancels<S: Scalar>(p: Vector3<S>)
    ensures
        Matrix4x4::mul_spec(
            Matrix4x4::translation_spec(p),
            Matrix4x4::translation_spec(Vector3::neg_spec(p)),
        ) == Matrix4x4::<S>::identity_spec(),
{
    lemma_scalar_units(p.x);
    lemma_scalar_units(p.y);
    lemma_scalar_units(p.z);
    lemma_scalar_units(S::negate_spec(p.x));
    lemma_scalar_units(S::negate_spec(p.y));
    lemma_scalar_units(S::negate_spec(p.z));
    lemma_scalar_units(S::zero_spec());
    lemma_scalar_units(S::one_spec());
    S::plus_negate_cancels(p.x);
    S::plus_negate_cancels(p.y);
    S::plus_negate_cancels(p.z);
}

/// Negation is an involution: negating twice gives the value back. This
/// follows from the additive laws alone, by the uniqueness of inverses.
proof fn lemma_negate_involution<S: Scalar>(a: S)
    ensures
        S::negate_spec(S::negate_spec(a)) == a,
{
    S::plus_negate_cancels(a);
    S::plus_negate_cancels(S::negate_spec(a));
    S::plus_associative(a, S::negate_spec(a), S::negate_spec(S::negate_spec(a)));
    S::plus_zero_identity(a);
    S::plus_zero_identity(S::negate_spec(S::negate_spec(a)));
}

/// The scalar consequences of the Pythagorean identity for one angle: the
/// facts about its cosine and sine that the rotation-cancellation laws
/// read off the product entries.
proof fn lemma_trig_pair_facts<S: Scalar>(c: S, s: S)
    requires
        S::plus_spec(S::times_spec(c, c), S::times_spec(s, s)) == S::one_spec(),
    ensures
        S::negate_spec(S::negate_spec(s)) == s,
        S::times_spec(S::negate_spec(s), S::negate_spec(s)) == S::times_spec(s, s),
        S::times_spec(s, c) == S::times_spec(c, s),
        S::times_spec(c, S::negate_spec(s)) == S::negate_spec(S::times_spec(c, s)),
        S::times_spec(S::negate_spec(s), c) == S::negate_spec(S::times_spec(c, s)),
        S::plus_spec(S::times_spec(s, s), S::times_spec(c, c)) == S::one_spec(),
        S::plus_spec(S::times_spec(c, s), S::negate_spec(S::times_spec(c, s)))
            == S::zero_spec(),
        S::plus_spec(S::negate_spec(S::times_spec(c, s)), S::times_spec(c, s))
            == S::zero_spec(),
{
    lemma_negate_involution(s);
    lemma_negate_involution(S::times_spec(s, s));
    S::times_negate_compatible(s, S::negate_spec(s));
    S::times_negate_compatible(s, s);
    S::times_negate_compatible(c, s);
    S::times_commutative(s, c);
    S::times_negate_compatible(s, c);
    S::plus_commutative(S::times_spec(c, c), S::times_spec(s, s));
    S::plus_negate_cancels(S::times_spec(c, s));
}

/// An x-axis rotation cancels against the x-axis rotation with its sine
/// negated: when the cosine and sine satisfy the Pythagorean identity, the
/// two factors compose to the identity matrix. The negated-sine factor is
/// exactly the closed-form inverse that the world-to-local composition
/// substitutes for the forward rotation.
pub proof fn lemma_x_rotation_pair_cancels<S: Scalar>(c: S, s: S)
    requires
        S::plus_spec(S::times_spec(c, c), S::times_spec(s, s)) == S::one_spec(),
    ensures
        Matrix4x4::mul_spec(
            Matrix4x4::x_rotation_spec(c, s),
            Matrix4x4::x_rotation_spec(c, S::negate_spec(s)),
        ) == Matrix4x4::<S>::identity_spec(),
{
    lemma_trig_pair_facts(c, s);
    lemma_scalar_units(c);
    lemma_scalar_units(s);
    lemma_scalar_units(S::negate_spec(s));
    lemma_scalar_units(S::zero_spec());
    lemma_scalar_units(S::one_spec());
    lemma_scalar_units(S::times_spec(c, c));
    lemma_scalar_units(S::times_spec(s, s));
    lemma_scalar_units(S::times_spec(c, s));
    lemma_scalar_units(S::times_spec(s, c));
    lemma_scalar_units(S::negate_spec(S::times_spec(c, s)));
}

/// A y-axis rotation cancels against the y-axis rotation with its sine
/// negated, under the same Pythagorean hypothesis.
pub proof fn lemma_y_rotation_pair_cancels<S: Scalar>(c: S, s: S)
    requires
        S::plus_spec(S::times_spec(c, c), S::times_spec(s, s)) == S::one_spec(),
    ensures
        Matrix4x4::mul_spec(
            Matrix4x4::y_rotation_spec(c, s),
            Matrix4x4::y_rotation_spec(c, S::negate_spec(s)),
        ) == Matrix4x4::<S>::identity_spec(),
{
    lemma_trig_pair_facts(c, s);
    lemma_scalar_units(c);
    lemma_scalar_units(s);
    lemma_scalar_units(S::negate_spec(s));
    lemma_scalar_units(S::zero_spec());
    lemma_scalar_units(S::one_spec());
    lemma_scalar_units(S::times_spec(c, c));
    lemma_scalar_units(S::times_spec(s, s));
    lemma_scalar_units(S::times_spec(c, s));
    lemma_scalar_units(S::times_spec(s, c));
    lemma_scalar_units(S::negate_spec(S::times_spec(c, s)));
}

/// A z-axis rotation cancels against the z-axis rotation with its sine
/// negated, under the same Pythagorean hypothesis.
pub proof fn lemma_z_rotation_pair_cancels<S: Scalar>(c: S, s: S)
    requires
        S::plus_spec(S::times_spec(c, c), S::times_spec(s, s)) == S::one_spec(),
    ensures
        Matrix4x4::mul_spec(
            Matrix4x4::z_rotation_spec(c, s),
            Matrix4x4::z_rotation_spec(c, S::negate_spec(s)),
        ) == Matrix4x4::<S>::identity_spec(),
{
    lemma_trig_pair_facts(c, s);
    lemma_scalar_units(c);
    lemma_scalar_units(s);
    lemma_scalar_units(S::negate_spec(s));
    lemma_scalar_units(S::zero_spec());
    lemma_scalar_units(S::one_spec());
    lemma_scalar_units(S::times_spec(c, c));
    lemma_scalar_units(S::times_spec(s, s));
    lemma_scalar_units(S::times_spec(c, s));
    lemma_scalar_units(S::times_spec(s, c));
    lemma_scalar_units(S::negate_spec(S::times_spec(c, s)));
}

/// The key correctness property of the transform composition: the
/// local-to-world matrix and the world-to-local matrix cancel to the
/// identity, for every position, every rotation whose cosines and sines
/// satisfy the Pythagorean identity, and every scale whose components have
/// exact reciprocals. The chains telescope: by associativity each forward
/// factor meets its own closed-form inverse in the middle and the pair
/// collapses.
pub proof fn lemma_transform_matrices_cancel<S: Scalar>(
    position: Vector3<S>,
    scale: Vector3<S>,
    t: EulerTrig<S>,
)
    requires
        S::plus_spec(S::times_spec(t.cos_x, t.cos_x), S::times_spec(t.sin_x, t.sin_x))
            == S::one_spec(),
        S::plus_spec(S::times_spec(t.cos_y, t.cos_y), S::times_spec(t.sin_y, t.sin_y))
            == S::one_spec(),
        S::plus_spec(S::times_spec(t.cos_z, t.cos_z), S::times_spec(t.sin_z, t.sin_z))
            == S::one_spec(),
        S::times_spec(scale.x, S::divide_spec(S::one_spec(), scale.x)) == S::one_spec(),
        S::times_spec(scale.y, S::divide_spec(S::one_spec(), scale.y)) == S::one_spec(),
        S::times_spec(scale.z, S::divide_spec(S::one_spec(), scale.z)) == S::one_spec(),
    ensures
        Matrix4x4::mul_spec(
            Transform::local_to_world_spec(position, scale, t),
            Transform::world_to_local_spec(position, scale, t),
        ) == Matrix4x4::<S>::identity_spec(),
{
    let tr = Matrix4x4::translation_spec(position);
    let ry = Matrix4x4::y_rotation_spec(t.cos_y, t.sin_y);
    let rx = Matrix4x4::x_rotation_spec(t.cos_x, t.sin_x);
    let rz = Matrix4x4::z_rotation_spec(t.cos_z, t.sin_z);
    let sc = Matrix4x4::scale_spec(scale);
    let d = Vector3::scalar_div_spec(S::one_spec(), scale);
    let sci = Matrix4x4::scale_spec(d);
    let rzi = Matrix4x4::z_rotation_spec(t.cos_z, S::negate_spec(t.sin_z));
    let rxi = Matrix4x4::x_rotation_spec(t.cos_x, S::negate_spec(t.sin_x));
    let ryi = Matrix4x4::y_rotation_spec(t.cos_y, S::negate_spec(t.sin_y));
    let tri = Matrix4x4::translation_spec(Vector3::neg_spec(position));

    let w2l = Transform::world_to_local_spec(position, scale, t);
    let x1 = Matrix4x4::mul_spec(rzi, Matrix4x4::mul_spec(rxi, Matrix4x4::mul_spec(ryi, tri)));
    let x2 = Matrix4x4::mul_spec(rxi, Matrix4x4::mul_spec(ryi, tri));
    let x3 = Matrix4x4::mul_spec(ryi, tri);

    // The innermost pair: the scale meets the reciprocal scale.
    lemma_mul_associative(sc, sci, x1);
    lemma_scale_pair_cancels(scale, d);
    lemma_identity_mul_left(x1);
    assert(Matrix4x4::mul_spec(sc, w2l) == x1);

    // Each rotation meets the rotation with its sine negated.
    lemma_mul_associative(rz, rzi, x2);
    lemma_z_rotation_pair_cancels(t.cos_z, t.sin_z);
    lemma_identity_mul_left(x2);
    assert(Matrix4x4::mul_spec(rz, x1) == x2);

    lemma_mul_associative(rx, rxi, x3);
    lemma_x_rotation_pair_cancels(t.cos_x, t.sin_x);
    lemma_identity_mul_left(x3);
    assert(Matrix4x4::mul_spec(rx, x2) == x3);

    lemma_mul_associative(ry, ryi, tri);
    lemma_y_rotation_pair_cancels(t.cos_y, t.sin_y);
    lemma_identity_mul_left(tri);
    assert(Matrix4x4::mul_spec(ry, x3) == tri);

    // The outermost pair: the translation meets its negation.
    lemma_translation_pair_cancels(position);
    assert(Matrix4x4::mul_spec(tr, tri) == Matrix4x4::<S>::identity_spec());

    // Reassociate the whole product so the pairs collapse one after the
    // other, from the middle outward.
    let y3 = Matrix4x4::mul_spec(rz, sc);
    let y2 = Matrix4x4::mul_spec(rx, y3);
    let y1 = Matrix4x4::mul_spec(ry, y2);
    lemma_mul_associative(rz, sc, w2l);
    assert(Matrix4x4::mul_spec(y3, w2l) == x2);
    lemma_mul_associative(rx, y3, w2l);
    assert(Matrix4x4::mul_spec(y2, w2l) == x3);
    lemma_mul_associative(ry, y2, w2l);
    assert(Matrix4x4::mul_spec(y1, w2l) == tri);
    lemma_mul_associative(tr, y1, w2l);
}

/// The world-to-local matrix also cancels against the local-to-world
/// matrix from the left, under the same hypotheses: each inverted factor
/// meets its forward partner after the translations cancel in the middle.
pub proof fn lemma_transform_matrices_cancel_reverse<S: Scalar>(
    position: Vector3<S>,
    scale: Vector3<S>,
    t: EulerTrig<S>,
)
    requires
        S::plus_spec(S::times_spec(t.cos_x, t.cos_x), S::times_spec(t.sin_x, t.sin_x))
            == S::one_spec(),
        S::plus_spec(S::times_spec(t.cos_y, t.cos_y), S::times_spec(t.sin_y, t.sin_y))
            == S::one_spec(),
        S::plus_spec(S::times_spec(t.cos_z, t.cos_z), S::times_spec(t.sin_z, t.sin_z))
            == S::one_spec(),
        S::times_spec(scale.x, S::divide_spec(S::one_spec(), scale.x)) == S::one_spec(),
        S::times_spec(scale.y, S::divide_spec(S::one_spec(), scale.y)) == S::one_spec(),
        S::times_spec(scale.z, S::divide_spec(S::one_spec(), scale.z)) == S::one_spec(),
    ensures
        Matrix4x4::mul_spec(
            Transform::world_to_local_spec(position, scale, t),
            Transform::local_to_world_spec(position, scale, t),
        ) == Matrix4x4::<S>::identity_spec(),
{
    let tr = Matrix4x4::translation_spec(position);
    let ry = Matrix4x4::y_rotation_spec(t.cos_y, t.sin_y);
    let rx = Matrix4x4::x_rotation_spec(t.cos_x, t.sin_x);
    let rz = Matrix4x4::z_rotation_spec(t.cos_z, t.sin_z);
    let sc = Matrix4x4::scale_spec(scale);
    let d = Vector3::scalar_div_spec(S::one_spec(), scale);
    let sci = Matrix4x4::scale_spec(d);
    let rzi = Matrix4x4::z_rotation_spec(t.cos_z, S::negate_spec(t.sin_z));
    let rxi = Matrix4x4::x_rotation_spec(t.cos_x, S::negate_spec(t.sin_x));
    let ryi = Matrix4x4::y_rotation_spec(t.cos_y, S::negate_spec(t.sin_y));
    let np = Vector3::neg_spec(position);
    let tri = Matrix4x4::translation_spec(np);

    let l2w = Transform::local_to_world_spec(position, scale, t);
    let x1 = Matrix4x4::mul_spec(ry, Matrix4x4::mul_spec(rx, Matrix4x4::mul_spec(rz, sc)));
    let x2 = Matrix4x4::mul_spec(rx, Matrix4x4::mul_spec(rz, sc));
    let x3 = Matrix4x4::mul_spec(rz, sc);

    // The negated translation meets the translation: negation is an
    // involution, so the inverted pair is itself a translation pair.
    lemma_negate_involution(position.x);
    lemma_negate_involution(position.y);
    lemma_negate_involution(position.z);
    lemma_translation_pair_cancels(np);
    lemma_mul_associative(tri, tr, x1);
    lemma_identity_mul_left(x1);
    assert(Matrix4x4::mul_spec(tri, l2w) == x1);

    // Each inverted rotation meets its forward partner: the forward factor
    // is the inverted one with the sine negated again, and the negated
    // sine satisfies the same Pythagorean identity.
    lemma_negate_involution(t.sin_x);
    lemma_negate_involution(t.sin_y);
    lemma_negate_involution(t.sin_z);
    lemma_trig_pair_facts(t.cos_x, t.sin_x);
    lemma_trig_pair_facts(t.cos_y, t.sin_y);
    lemma_trig_pair_facts(t.cos_z, t.sin_z);

    lemma_y_rotation_pair_cancels(t.cos_y, S::negate_spec(t.sin_y));
    lemma_mul_associative(ryi, ry, x2);
    lemma_identity_mul_left(x2);
    assert(Matrix4x4::mul_spec(ryi, x1) == x2);

    lemma_x_rotation_pair_cancels(t.cos_x, S::negate_spec(t.sin_x));
    lemma_mul_associative(rxi, rx, x3);
    lemma_identity_mul_left(x3);
    assert(Matrix4x4::mul_spec(rxi, x2) == x3);

    lemma_z_rotation_pair_cancels(t.cos_z, S::negate_spec(t.sin_z));
    lemma_mul_associative(rzi, rz, sc);
    lemma_identity_mul_left(sc);
    assert(Matrix4x4::mul_spec(rzi, x3) == sc);

    // The reciprocal scale meets the scale, with the product order flipped
    // by commutativity.
    S::times_commutative(scale.x, d.x);
    S::times_commutative(scale.y, d.y);
    S::times_commutative(scale.z, d.z);
    lemma_scale_pair_cancels(d, scale);
    assert(Matrix4x4::mul_spec(sci, sc) == Matrix4x4::<S>::identity_spec());

    // Telescope from the middle outward.
    let z3 = Matrix4x4::mul_spec(ryi, tri);
    let z2 = Matrix4x4::mul_spec(rxi, z3);
    let z1 = Matrix4x4::mul_spec(rzi, z2);
    lemma_mul_associative(ryi, tri, l2w);
    assert(Matrix4x4::mul_spec(z3, l2w) == x2);
    lemma_mul_associative(rxi, z3, l2w);
    assert(Matrix4x4::mul_spec(z2, l2w) == x3);
    lemma_mul_associative(rzi, z2, l2w);
    assert(Matrix4x4::mul_spec(z1, l2w) == sc);
    lemma_mul_associative(sci, z1, l2w);
}

/// The negation of zero is zero.
proof fn lemma_negate_zero<S: Scalar>()
    ensures
        S::negate_spec(S::zero_spec()) == S::zero_spec(),
{
    S::plus_negate_cancels(S::zero_spec());
    S::plus_zero_identity(S::negate_spec(S::zero_spec()));
}

/// The shape every symmetric perspective matrix takes: a diagonal pair, a
/// depth row `(c, e)`, and the homogeneous row `(0, 0, -1, 0)`.
pub open spec fn perspective_shape<S: Scalar>(a: S, b: S, c: S, e: S) -> Matrix4x4<S> {
    Matrix4x4 {
        r0: Vector4 { x: a, y: S::zero_spec(), z: S::zero_spec(), w: S::zero_spec() },
        r1: Vector4 { x: S::zero_spec(), y: b, z: S::zero_spec(), w: S::zero_spec() },
        r2: Vector4 { x: S::zero_spec(), y: S::zero_spec(), z: c, w: e },
        r3: Vector4 {
            x: S::zero_spec(),
            y: S::zero_spec(),
            z: S::negate_spec(S::one_spec()),
            w: S::zero_spec(),
        },
    }
}

/// A perspective-shaped matrix cancels against its cofactor inverse: the
/// determinant reduces to `a * (b * e)`, and when that value has an exact
/// reciprocal the product of the matrix with `inverse_spec` of itself is
/// the identity.
#[verifier::rlimit(100)]
pub proof fn lemma_perspective_shape_inverse_cancels<S: Scalar>(a: S, b: S, c: S, e: S)
    requires
        S::times_spec(
            Matrix4x4::det_spec(perspective_shape(a, b, c, e)),
            S::divide_spec(S::one_spec(), Matrix4x4::det_spec(perspective_shape(a, b, c, e))),
        ) == S::one_spec(),
    ensures
        Matrix4x4::mul_spec(
            perspective_shape(a, b, c, e),
            Matrix4x4::inverse_spec(perspective_shape(a, b, c, e)),
        ) == Matrix4x4::<S>::identity_spec(),
{
    let zero = S::zero_spec();
    let one = S::one_spec();
    let n1 = S::negate_spec(one);
    let m = perspective_shape(a, b, c, e);
    let be = S::times_spec(b, e);
    let ae = S::times_spec(a, e);
    let ab = S::times_spec(a, b);
    let bc = S::times_spec(b, c);
    let abc = S::times_spec(a, bc);
    let dd = S::times_spec(a, be);
    let d = S::divide_spec(one, dd);

    // Unit and negation facts for every value the entries reduce to.
    lemma_negate_zero::<S>();
    lemma_negate_involution(e);
    lemma_negate_involution(one);
    lemma_negate_involution(ab);
    lemma_scalar_units(a);
    lemma_scalar_units(b);
    lemma_scalar_units(c);
    lemma_scalar_units(e);
    lemma_scalar_units(zero);
    lemma_scalar_units(one);
    lemma_scalar_units(n1);
    lemma_scalar_units(S::negate_spec(b));
    lemma_scalar_units(S::negate_spec(e));
    lemma_scalar_units(be);
    lemma_scalar_units(ae);
    lemma_scalar_units(ab);
    lemma_scalar_units(bc);
    lemma_scalar_units(abc);
    lemma_scalar_units(dd);
    lemma_scalar_units(S::negate_spec(dd));
    lemma_scalar_units(d);
    S::times_negate_compatible(e, one);
    S::times_negate_compatible(b, one);
    S::times_negate_compatible(a, b);
    S::minus_is_plus_negate(zero, S::negate_spec(e));
    S::minus_is_plus_negate(zero, zero);
    S::minus_is_plus_negate(S::negate_spec(b), zero);
    S::minus_is_plus_negate(be, zero);
    S::minus_is_plus_negate(bc, zero);
    S::minus_is_plus_negate(ae, zero);
    S::minus_is_plus_negate(abc, zero);
    S::minus_is_plus_negate(dd, zero);
    S::minus_is_plus_negate(S::negate_spec(ab), zero);
    lemma_scalar_units(S::negate_spec(ab));

    // The determinant reduces to a * (b * e).
    assert(Matrix4x4::det_spec(m) == dd);

    // The inverse reduces to a sparse closed form.
    let inv = Matrix4x4::inverse_spec(m);
    let dbe = S::times_spec(d, be);
    let dae = S::times_spec(d, ae);
    let dab = S::times_spec(d, ab);
    let dnd = S::times_spec(d, S::negate_spec(dd));
    let dabc = S::times_spec(d, abc);
    lemma_scalar_units(dbe);
    lemma_scalar_units(dae);
    lemma_scalar_units(dab);
    lemma_scalar_units(dnd);
    lemma_scalar_units(dabc);
    assert(inv == (Matrix4x4 {
        r0: Vector4 { x: dbe, y: zero, z: zero, w: zero },
        r1: Vector4 { x: zero, y: dae, z: zero, w: zero },
        r2: Vector4 { x: zero, y: zero, z: zero, w: dnd },
        r3: Vector4 { x: zero, y: zero, z: dab, w: dabc },
    }));

    // The diagonal entries rearrange onto the determinant times its
    // reciprocal; the depth column cancels through negation.
    S::times_commutative(d, be);
    S::times_associative(a, be, d);
    assert(S::times_spec(a, dbe) == one);

    S::times_commutative(d, ae);
    S::times_associative(b, ae, d);
    S::times_associative(b, a, e);
    S::times_commutative(b, a);
    S::times_associative(a, b, e);
    assert(S::times_spec(b, dae) == one);

    S::times_commutative(d, ab);
    S::times_associative(e, ab, d);
    S::times_commutative(e, ab);
    assert(S::times_spec(e, dab) == one);

    let cdd = S::times_spec(S::times_spec(c, dd), d);
    S::times_commutative(d, S::negate_spec(dd));
    S::times_negate_compatible(c, dd);
    S::times_associative(c, S::negate_spec(dd), d);
    S::times_negate_compatible(S::times_spec(c, dd), d);
    assert(S::times_spec(c, dnd) == S::negate_spec(cdd));

    S::times_commutative(d, abc);
    S::times_associative(e, abc, d);
    S::times_associative(a, b, c);
    S::times_commutative(ab, c);
    S::times_associative(e, c, ab);
    S::times_commutative(e, c);
    S::times_associative(a, b, e);
    S::times_commutative(ab, e);
    S::times_associative(c, e, ab);
    S::times_associative(c, dd, d);
    S::times_associative(e, abc, d);
    assert(S::times_spec(e, abc) == S::times_spec(c, dd)) by {
        assert(S::times_spec(e, abc) == S::times_spec(S::times_spec(c, e), ab));
        assert(S::times_spec(c, dd) == S::times_spec(S::times_spec(c, e), ab));
    }
    assert(S::times_spec(e, dabc) == cdd);
    S::plus_negate_cancels(cdd);
    lemma_scalar_units(S::negate_spec(cdd));

    S::times_negate_compatible(one, dnd);
    S::times_commutative(d, S::negate_spec(dd));
    S::times_negate_compatible(dd, d);
    assert(S::times_spec(n1, dnd) == one);
}

/// The symmetric perspective projection cancels against its cofactor
/// inverse whenever its determinant has an exact reciprocal in the scalar.
pub proof fn lemma_perspective_projection_inverse_cancels<S: Scalar>(
    width: S,
    height: S,
    near: S,
    far: S,
)
    requires
        S::times_spec(
            Matrix4x4::det_spec(
                Matrix4x4::perspective_projection_sym_spec(width, height, near, far),
            ),
            S::divide_spec(
                S::one_spec(),
                Matrix4x4::det_spec(
                    Matrix4x4::perspective_projection_sym_spec(width, height, near, far),
                ),
            ),
        ) == S::one_spec(),
    ensures
        Matrix4x4::mul_spec(
            Matrix4x4::perspective_projection_sym_spec(width, height, near, far),
            Matrix4x4::inverse_spec(
                Matrix4x4::perspective_projection_sym_spec(width, height, near, far),
            ),
        ) == Matrix4x4::<S>::identity_spec(),
{
    let two = S::plus_spec(S::one_spec(), S::one_spec());
    let right = S::divide_spec(width, two);
    let top = S::divide_spec(height, two);
    let depth = S::minus_spec(far, near);
    lemma_perspective_shape_inverse_cancels(
        S::divide_spec(near, right),
        S::divide_spec(near, top),
        S::divide_spec(S::negate_spec(S::plus_spec(far, near)), depth),
        S::divide_spec(S::times_spec(S::times_spec(S::negate_spec(two), far), near), depth),
    );
}

/// The camera's derived projection and its cofactor inverse cancel: for
/// any aspect ratio, clip planes and half-angle tangent whose projection
/// determinant has an exact reciprocal, the two cached matrices compose to
/// the identity.
pub proof fn lemma_camera_projection_pair_cancels<S: Scalar>(
    aspect: S,
    near: S,
    far: S,
    tan_half_fov: S,
)
    requires
        S::times_spec(
            Matrix4x4::det_spec(Camera::projection_spec(aspect, near, far, tan_half_fov)),
            S::divide_spec(
                S::one_spec(),
                Matrix4x4::det_spec(Camera::projection_spec(aspect, near, far, tan_half_fov)),
            ),
        ) == S::one_spec(),
    ensures
        Matrix4x4::mul_spec(
            Camera::projection_spec(aspect, near, far, tan_half_fov),
            Matrix4x4::inverse_spec(Camera::projection_spec(aspect, near, far, tan_half_fov)),
        ) == Matrix4x4::<S>::identity_spec(),
{
    let two = S::plus_spec(S::one_spec(), S::one_spec());
    let height = S::times_spec(S::times_spec(two, near), tan_half_fov);
    let width = S::times_spec(height, aspect);
    lemma_perspective_projection_inverse_cancels(width, height, near, far);
}

/// A product whose left factor has the affine last row `(0, 0, 0, 1)`
/// inherits the right factor's last row.
proof fn lemma_affine_last_row<S: Scalar>(a: Matrix4x4<S>, b: Matrix4x4<S>)
    requires
        a.r3 == (Vector4 {
            x: S::zero_spec(),
            y: S::zero_spec(),
            z: S::zero_spec(),
            w: S::one_spec(),
        }),
    ensures
        Matrix4x4::mul_spec(a, b).r3 == b.r3,
{
    lemma_dot_with_unit(Matrix4x4::c0_spec(b));
    lemma_dot_with_unit(Matrix4x4::c1_spec(b));
    lemma_dot_with_unit(Matrix4x4::c2_spec(b));
    lemma_dot_with_unit(Matrix4x4::c3_spec(b));
}

/// Mapping a point to world space and back through the transform returns
/// the point exactly, under the same Pythagorean and reciprocal-scale
/// hypotheses as the matrix cancellation: both composed matrices are
/// affine, so the homogeneous weight stays one and the two applications
/// cancel through the matrix product.
pub proof fn lemma_transform_point_round_trip<S: Scalar>(
    position: Vector3<S>,
    scale: Vector3<S>,
    t: EulerTrig<S>,
    point: Vector3<S>,
)
    requires
        S::plus_spec(S::times_spec(t.cos_x, t.cos_x), S::times_spec(t.sin_x, t.sin_x))
            == S::one_spec(),
        S::plus_spec(S::times_spec(t.cos_y, t.cos_y), S::times_spec(t.sin_y, t.sin_y))
            == S::one_spec(),
        S::plus_spec(S::times_spec(t.cos_z, t.cos_z), S::times_spec(t.sin_z, t.sin_z))
            == S::one_spec(),
        S::times_spec(scale.x, S::divide_spec(S::one_spec(), scale.x)) == S::one_spec(),
        S::times_spec(scale.y, S::divide_spec(S::one_spec(), scale.y)) == S::one_spec(),
        S::times_spec(scale.z, S::divide_spec(S::one_spec(), scale.z)) == S::one_spec(),
    ensures
        Matrix4x4::transform_point_spec(
            Transform::world_to_local_spec(position, scale, t),
            Matrix4x4::transform_point_spec(
                Transform::local_to_world_spec(position, scale, t),
                point,
            ),
        ) == point,
{
    let l2w = Transform::local_to_world_spec(position, scale, t);
    let w2l = Transform::world_to_local_spec(position, scale, t);
    let tr = Matrix4x4::translation_spec(position);
    let ry = Matrix4x4::y_rotation_spec(t.cos_y, t.sin_y);
    let rx = Matrix4x4::x_rotation_spec(t.cos_x, t.sin_x);
    let rz = Matrix4x4::z_rotation_spec(t.cos_z, t.sin_z);
    let sc = Matrix4x4::scale_spec(scale);
    let d = Vector3::scalar_div_spec(S::one_spec(), scale);
    let sci = Matrix4x4::scale_spec(d);
    let rzi = Matrix4x4::z_rotation_spec(t.cos_z, S::negate_spec(t.sin_z));
    let rxi = Matrix4x4::x_rotation_spec(t.cos_x, S::negate_spec(t.sin_x));
    let ryi = Matrix4x4::y_rotation_spec(t.cos_y, S::negate_spec(t.sin_y));
    let tri = Matrix4x4::translation_spec(Vector3::neg_spec(position));
    let unit_w = Vector4 {
        x: S::zero_spec(),
        y: S::zero_spec(),
        z: S::zero_spec(),
        w: S::one_spec(),
    };

    // Both composed matrices keep the affine last row.
    lemma_affine_last_row(rz, sc);
    lemma_affine_last_row(rx, Matrix4x4::mul_spec(rz, sc));
    lemma_affine_last_row(ry, Matrix4x4::mul_spec(rx, Matrix4x4::mul_spec(rz, sc)));
    lemma_affine_last_row(
        tr,
        Matrix4x4::mul_spec(ry, Matrix4x4::mul_spec(rx, Matrix4x4::mul_spec(rz, sc))),
    );
    assert(l2w.r3 == unit_w);
    lemma_affine_last_row(ryi, tri);
    lemma_affine_last_row(rxi, Matrix4x4::mul_spec(ryi, tri));
    lemma_affine_last_row(rzi, Matrix4x4::mul_spec(rxi, Matrix4x4::mul_spec(ryi, tri)));
    lemma_affine_last_row(
        sci,
        Matrix4x4::mul_spec(rzi, Matrix4x4::mul_spec(rxi, Matrix4x4::mul_spec(ryi, tri))),
    );
    assert(w2l.r3 == unit_w);

    // The forward image keeps homogeneous weight one, so its perspective
    // divide changes nothing.
    let hp = Vector4 { x: point.x, y: point.y, z: point.z, w: S::one_spec() };
    let h1 = Matrix4x4::mul_vec_spec(l2w, hp);
    lemma_dot_with_unit(hp);
    assert(h1.w == S::one_spec());
    S::divide_one_identity(h1.x);
    S::divide_one_identity(h1.y);
    S::divide_one_identity(h1.z);
    let forward = Matrix4x4::transform_point_spec(l2w, point);
    assert(forward == (Vector3 { x: h1.x, y: h1.y, z: h1.z }));
    assert((Vector4 { x: forward.x, y: forward.y, z: forward.z, w: S::one_spec() }) == h1);

    // The backward application composes to the identity map on the
    // homogeneous point.
    lemma_mul_vec_associative(w2l, l2w, hp);
    lemma_transform_matrices_cancel_reverse(position, scale, t);
    lemma_identity_mul_vec(hp);
    let h2 = Matrix4x4::mul_vec_spec(w2l, h1);
    assert(h2 == hp);
    S::divide_one_identity(point.x);
    S::divide_one_identity(point.y);
    S::divide_one_identity(point.z);
}

} // verus!
