//! Three-component vectors: positions, rotations and scales.

use vstd::prelude::*;
use crate::scalar::Scalar;

verus! {

/// A value-semantics triple of scalars. No invariant is enforced on the
/// contents; every operation is total and returns a new value.
#[derive(Clone, Copy, PartialEq, Debug)]
pub struct Vector3<S> {
    pub x: S,
    pub y: S,
    pub z: S,
}

impl<S: Scalar> Vector3<S> {
    pub fn new(x: S, y: S, z: S) -> (r: Vector3<S>)
        ensures
            r == (Vector3 { x, y, z }),
    {
        Vector3 { x, y, z }
    }

    /// What `cross` returns: the right-handed cross product, each component a
    /// difference of the two opposing products.
    pub open spec fn cross_spec(a: Vector3<S>, b: Vector3<S>) -> Vector3<S> {
        Vector3 {
            x: S::minus_spec(S::times_spec(a.y, b.z), S::times_spec(a.z, b.y)),
            y: S::minus_spec(S::times_spec(a.z, b.x), S::times_spec(a.x, b.z)),
            z: S::minus_spec(S::times_spec(a.x, b.y), S::times_spec(a.y, b.x)),
        }
    }

    pub fn cross(a: Vector3<S>, b: Vector3<S>) -> (r: Vector3<S>)
        ensures
            r == Self::cross_spec(a, b),
    {
        Vector3 {
            x: a.y.times(b.z).minus(a.z.times(b.y)),
            y: a.z.times(b.x).minus(a.x.times(b.z)),
            z: a.x.times(b.y).minus(a.y.times(b.x)),
        }
    }

    /// What `add` returns.
    pub open spec fn add_spec(a: Vector3<S>, b: Vector3<S>) -> Vector3<S> {
        Vector3 {
            x: S::plus_spec(a.x, b.x),
            y: S::plus_spec(a.y, b.y),
            z: S::plus_spec(a.z, b.z),
        }
    }

    pub fn add(self, other: Vector3<S>) -> (r: Vector3<S>)
        ensures
            r == Self::add_spec(self, other),
    {
        Vector3 { x: self.x.plus(other.x), y: self.y.plus(other.y), z: self.z.plus(other.z) }
    }

    /// What `sub` returns.
    pub open spec fn sub_spec(a: Vector3<S>, b: Vector3<S>) -> Vector3<S> {
        Vector3 {
            x: S::minus_spec(a.x, b.x),
            y: S::minus_spec(a.y, b.y),
            z: S::minus_spec(a.z, b.z),
        }
    }

    pub fn sub(self, other: Vector3<S>) -> (r: Vector3<S>)
        ensures
            r == Self::sub_spec(self, other),
    {
        Vector3 { x: self.x.minus(other.x), y: self.y.minus(other.y), z: self.z.minus(other.z) }
    }

    /// What `dot` returns: the sum of the componentwise products,
    /// accumulated left to right.
    pub open spec fn dot_spec(a: Vector3<S>, b: Vector3<S>) -> S {
        S::plus_spec(
            S::plus_spec(S::times_spec(a.x, b.x), S::times_spec(a.y, b.y)),
            S::times_spec(a.z, b.z),
        )
    }

    pub fn dot(self, other: Vector3<S>) -> (r: S)
        ensures
            r == Self::dot_spec(self, other),
    {
        self.x.times(other.x).plus(self.y.times(other.y)).plus(self.z.times(other.z))
    }

    /// What `scale` returns.
    pub open spec fn scale_spec(a: Vector3<S>, s: S) -> Vector3<S> {
        Vector3 {
            x: S::times_spec(a.x, s),
            y: S::times_spec(a.y, s),
            z: S::times_spec(a.z, s),
        }
    }

    /// Multiply every component by `s`.
    pub fn scale(self, s: S) -> (r: Vector3<S>)
        ensures
            r == Self::scale_spec(self, s),
    {
        Vector3 { x: self.x.times(s), y: self.y.times(s), z: self.z.times(s) }
    }

    /// What `div_scalar` returns: a scale by the reciprocal of `s`.
    pub open spec fn div_scalar_spec(a: Vector3<S>, s: S) -> Vector3<S> {
        Self::scale_spec(a, S::divide_spec(S::one_spec(), s))
    }

    /// Divide every component by `s`, computed as a multiplication by the
    /// reciprocal `1 / s`.
    pub fn div_scalar(self, s: S) -> (r: Vector3<S>)
        ensures
            r == Self::div_scalar_spec(self, s),
    {
        let recip = S::one().divide(s);
        Vector3 { x: self.x.times(recip), y: self.y.times(recip), z: self.z.times(recip) }
    }

    /// What `scalar_div` returns.
    pub open spec fn scalar_div_spec(s: S, a: Vector3<S>) -> Vector3<S> {
        Vector3 {
            x: S::divide_spec(s, a.x),
            y: S::divide_spec(s, a.y),
            z: S::divide_spec(s, a.z),
        }
    }

    /// Divide the scalar `s` by every component in turn: `s / a` yields the
    /// vector of reciprocals scaled by `s`.
    pub fn scalar_div(s: S, a: Vector3<S>) -> (r: Vector3<S>)
        ensures
            r == Self::scalar_div_spec(s, a),
    {
        Vector3 { x: s.divide(a.x), y: s.divide(a.y), z: s.divide(a.z) }
    }

    /// What `neg` returns.
    pub open spec fn neg_spec(a: Vector3<S>) -> Vector3<S> {
        Vector3 { x: S::negate_spec(a.x), y: S::negate_spec(a.y), z: S::negate_spec(a.z) }
    }

    pub fn neg(self) -> (r: Vector3<S>)
        ensures
            r == Self::neg_spec(self),
    {
        Vector3 { x: self.x.negate(), y: self.y.negate(), z: self.z.negate() }
    }
}

} // verus!
