//! Four-component homogeneous vectors; `w` carries the homogeneous weight.

use vstd::prelude::*;
use crate::scalar::Scalar;

verus! {

/// A value-semantics quadruple of scalars with the same permissive
/// conventions as [`crate::vector3::Vector3`].
#[derive(Clone, Copy, PartialEq, Debug)]
pub struct Vector4<S> {
    pub x: S,
    pub y: S,
    pub z: S,
    pub w: S,
}

impl<S: Scalar> Vector4<S> {
    pub fn new(x: S, y: S, z: S, w: S) -> (r: Vector4<S>)
        ensures
            r == (Vector4 { x, y, z, w }),
    {
        Vector4 { x, y, z, w }
    }

    /// What `add` returns.
    pub open spec fn add_spec(a: Vector4<S>, b: Vector4<S>) -> Vector4<S> {
        Vector4 {
            x: S::plus_spec(a.x, b.x),
            y: S::plus_spec(a.y, b.y),
            z: S::plus_spec(a.z, b.z),
            w: S::plus_spec(a.w, b.w),
        }
    }

    pub fn add(self, other: Vector4<S>) -> (r: Vector4<S>)
        ensures
            r == Self::add_spec(self, other),
    {
        Vector4 {
            x: self.x.plus(other.x),
            y: self.y.plus(other.y),
            z: self.z.plus(other.z),
            w: self.w.plus(other.w),
        }
    }

    /// What `sub` returns.
    pub open spec fn sub_spec(a: Vector4<S>, b: Vector4<S>) -> Vector4<S> {
        Vector4 {
            x: S::minus_spec(a.x, b.x),
            y: S::minus_spec(a.y, b.y),
            z: S::minus_spec(a.z, b.z),
            w: S::minus_spec(a.w, b.w),
        }
    }

    pub fn sub(self, other: Vector4<S>) -> (r: Vector4<S>)
        ensures
            r == Self::sub_spec(self, other),
    {
        Vector4 {
            x: self.x.minus(other.x),
            y: self.y.minus(other.y),
            z: self.z.minus(other.z),
            w: self.w.minus(other.w),
        }
    }

    /// What `dot` returns: the sum of the componentwise products,
    /// accumulated left to right.
    pub open spec fn dot_spec(a: Vector4<S>, b: Vector4<S>) -> S {
        S::plus_spec(
            S::plus_spec(
                S::plus_spec(S::times_spec(a.x, b.x), S::times_spec(a.y, b.y)),
                S::times_spec(a.z, b.z),
            ),
            S::times_spec(a.w, b.w),
        )
    }

    pub fn dot(self, other: Vector4<S>) -> (r: S)
        ensures
            r == Self::dot_spec(self, other),
    {
        self.x.times(other.x).plus(self.y.times(other.y)).plus(self.z.times(other.z)).plus(
            self.w.times(other.w),
        )
    }

    /// What `scale` returns.
    pub open spec fn scale_spec(a: Vector4<S>, s: S) -> Vector4<S> {
        Vector4 {
            x: S::times_spec(a.x, s),
            y: S::times_spec(a.y, s),
            z: S::times_spec(a.z, s),
            w: S::times_spec(a.w, s),
        }
    }

    /// Multiply every component by `s`.
    pub fn scale(self, s: S) -> (r: Vector4<S>)
        ensures
            r == Self::scale_spec(self, s),
    {
        Vector4 {
            x: self.x.times(s),
            y: self.y.times(s),
            z: self.z.times(s),
            w: self.w.times(s),
        }
    }

    /// What `div_scalar` returns: a scale by the reciprocal of `s`.
    pub open spec fn div_scalar_spec(a: Vector4<S>, s: S) -> Vector4<S> {
        Self::scale_spec(a, S::divide_spec(S::one_spec(), s))
    }

    /// Divide every component by `s`, computed as a multiplication by the
    /// reciprocal `1 / s`.
    pub fn div_scalar(self, s: S) -> (r: Vector4<S>)
        ensures
            r == Self::div_scalar_spec(self, s),
    {
        let recip = S::one().divide(s);
        self.scale(recip)
    }

    /// What `scalar_div` returns.
    pub open spec fn scalar_div_spec(s: S, a: Vector4<S>) -> Vector4<S> {
        Vector4 {
            x: S::divide_spec(s, a.x),
            y: S::divide_spec(s, a.y),
            z: S::divide_spec(s, a.z),
            w: S::divide_spec(s, a.w),
        }
    }

    /// Divide the scalar `s` by every component in turn.
    pub fn scalar_div(s: S, a: Vector4<S>) -> (r: Vector4<S>)
        ensures
            r == Self::scalar_div_spec(s, a),
    {
        Vector4 { x: s.divide(a.x), y: s.divide(a.y), z: s.divide(a.z), w: s.divide(a.w) }
    }

    /// What `neg` returns.
    pub open spec fn neg_spec(a: Vector4<S>) -> Vector4<S> {
        Vector4 {
            x: S::negate_spec(a.x),
            y: S::negate_spec(a.y),
            z: S::negate_spec(a.z),
            w: S::negate_spec(a.w),
        }
    }

    pub fn neg(self) -> (r: Vector4<S>)
        ensures
            r == Self::neg_spec(self),
    {
        Vector4 {
            x: self.x.negate(),
            y: self.y.negate(),
            z: self.z.negate(),
            w: self.w.negate(),
        }
    }

    /// The Euclidean length: a square root of the dot product of the vector
    /// with itself, characterised by the scalar's square-root relation.
    pub fn length(&self) -> (r: S)
        ensures
            S::sqrt_rel(Self::dot_spec(*self, *self), r),
    {
        self.dot(*self).square_root()
    }

    /// A normalized copy: the vector divided by its own length. A
    /// zero-length vector divides by zero and yields whatever junk values the
    /// scalar defines for that case.
    pub fn normalized(self) -> (r: Vector4<S>)
        ensures
            exists|l: S|
                #[trigger] S::sqrt_rel(Self::dot_spec(self, self), l) && r
                    == Self::div_scalar_spec(self, l),
    {
        let l = self.length();
        self.div_scalar(l)
    }
}

} // verus!
