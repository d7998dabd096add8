//! A world-transform component: position, rotation and scale together with a
//! lazily recomputed cache of the local-to-world and world-to-local
//! matrices.
//!
//! The component is a two-state machine. Any setter marks the cache stale;
//! any matrix-producing accessor first recomputes the two cached matrices if
//! and only if they are stale, then reads from the cache. A second read
//! without an intervening setter therefore leaves the component untouched
//! and returns the identical cached value.
//!
//! The abstract scalar cannot evaluate trigonometry, so every accessor that
//! may recompute takes the cosines and sines of the current rotation angles
//! (converted to radians) from the caller as an [`EulerTrig`] value.

use vstd::prelude::*;
use crate::scalar::Scalar;
use crate::vector3::Vector3;
use crate::matrix4x4::Matrix4x4;

verus! {

/// The cosine and sine of each of the three rotation angles, supplied by the
/// caller for the accessors that may recompute the cached matrices.
#[derive(Clone, Copy, PartialEq, Debug)]
pub struct EulerTrig<S> {
    pub cos_x: S,
    pub sin_x: S,
    pub cos_y: S,
    pub sin_y: S,
    pub cos_z: S,
    pub sin_z: S,
}

/// The abstract state of a [`Transform`]: its scalar fields, the staleness
/// flag, and the two cached matrices.
pub struct TransformView<S> {
    pub position: Vector3<S>,
    pub rotation: Vector3<S>,
    pub scale: Vector3<S>,
    pub has_changed: bool,
    pub local_to_world: Matrix4x4<S>,
    pub world_to_local: Matrix4x4<S>,
}

/// The world-transform component. The cached matrices are consistent with
/// the scalar fields if and only if `has_changed` is false; they are mutated
/// only by the internal recompute step, never directly by callers.
pub struct Transform<S> {
    position: Vector3<S>,
    /// Rotation angles, by convention in degrees.
    rotation: Vector3<S>,
    scale: Vector3<S>,
    has_changed: bool,
    local_to_world: Matrix4x4<S>,
    world_to_local: Matrix4x4<S>,
}

impl<S: Scalar> View for Transform<S> {
    type V = TransformView<S>;

    closed spec fn view(&self) -> TransformView<S> {
        TransformView {
            position: self.position,
            rotation: self.rotation,
            scale: self.scale,
            has_changed: self.has_changed,
            local_to_world: self.local_to_world,
            world_to_local: self.world_to_local,
        }
    }
}

impl<S: Scalar> Transform<S> {
    /// What the recompute step stores as the local-to-world matrix: scale
    /// first, then rotate about z, x and y in that order, then translate.
    pub open spec fn local_to_world_spec(
        position: Vector3<S>,
        scale: Vector3<S>,
        t: EulerTrig<S>,
    ) -> Matrix4x4<S> {
        Matrix4x4::mul_spec(
            Matrix4x4::translation_spec(position),
            Matrix4x4::mul_spec(
                Matrix4x4::y_rotation_spec(t.cos_y, t.sin_y),
                Matrix4x4::mul_spec(
                    Matrix4x4::x_rotation_spec(t.cos_x, t.sin_x),
                    Matrix4x4::mul_spec(
                        Matrix4x4::z_rotation_spec(t.cos_z, t.sin_z),
                        Matrix4x4::scale_spec(scale),
                    ),
                ),
            ),
        )
    }

    /// What the recompute step stores as the world-to-local matrix: the
    /// reverse composition with each factor's own closed-form inverse
    /// substituted — reciprocal scale, each rotation with its sine negated,
    /// and the negated translation.
    pub open spec fn world_to_local_spec(
        position: Vector3<S>,
        scale: Vector3<S>,
        t: EulerTrig<S>,
    ) -> Matrix4x4<S> {
        Matrix4x4::mul_spec(
            Matrix4x4::scale_spec(Vector3::scalar_div_spec(S::one_spec(), scale)),
            Matrix4x4::mul_spec(
                Matrix4x4::z_rotation_spec(t.cos_z, S::negate_spec(t.sin_z)),
                Matrix4x4::mul_spec(
                    Matrix4x4::x_rotation_spec(t.cos_x, S::negate_spec(t.sin_x)),
                    Matrix4x4::mul_spec(
                        Matrix4x4::y_rotation_spec(t.cos_y, S::negate_spec(t.sin_y)),
                        Matrix4x4::translation_spec(Vector3::neg_spec(position)),
                    ),
                ),
            ),
        )
    }

    /// The state after a recompute on the given trigonometry: both caches
    /// rebuilt from the current scalar fields, the staleness flag cleared,
    /// the scalar fields untouched.
    pub open spec fn recomputed_view(v: TransformView<S>, t: EulerTrig<S>) -> TransformView<S> {
        TransformView {
            has_changed: false,
            local_to_world: Self::local_to_world_spec(v.position, v.scale, t),
            world_to_local: Self::world_to_local_spec(v.position, v.scale, t),
            ..v
        }
    }

    /// The state an accessor leaves behind: untouched when the cache was
    /// already fresh, recomputed otherwise.
    pub open spec fn checked_view(v: TransformView<S>, t: EulerTrig<S>) -> TransformView<S> {
        if v.has_changed {
            Self::recomputed_view(v, t)
        } else {
            v
        }
    }

    /// A fresh transform: the identity placement, with both cached matrices
    /// the identity and nothing pending.
    pub fn new() -> (r: Transform<S>)
        ensures
            r@.position == (Vector3 {
                x: S::zero_spec(),
                y: S::zero_spec(),
                z: S::zero_spec(),
            }),
            r@.rotation == (Vector3 {
                x: S::zero_spec(),
                y: S::zero_spec(),
                z: S::zero_spec(),
            }),
            r@.scale == (Vector3 { x: S::one_spec(), y: S::one_spec(), z: S::one_spec() }),
            r@.has_changed == false,
            r@.local_to_world == Matrix4x4::<S>::identity_spec(),
            r@.world_to_local == Matrix4x4::<S>::identity_spec(),
    {
        let z = S::zero();
        let o = S::one();
        Transform {
            position: Vector3::new(z, z, z),
            rotation: Vector3::new(z, z, z),
            scale: Vector3::new(o, o, o),
            has_changed: false,
            local_to_world: Matrix4x4::identity(),
            world_to_local: Matrix4x4::identity(),
        }
    }

    pub fn set_position(&mut self, position: Vector3<S>)
        ensures
            final(self)@ == (TransformView { position, has_changed: true, ..old(self)@ }),
    {
        self.position = position;
        self.has_changed = true;
    }

    pub fn get_position(&self) -> (r: Vector3<S>)
        ensures
            r == self@.position,
    {
        self.position
    }

    pub fn set_rotation(&mut self, rotation: Vector3<S>)
        ensures
            final(self)@ == (TransformView { rotation, has_changed: true, ..old(self)@ }),
    {
        self.rotation = rotation;
        self.has_changed = true;
    }

    pub fn get_rotation(&self) -> (r: Vector3<S>)
        ensures
            r == self@.rotation,
    {
        self.rotation
    }

    pub fn set_scale(&mut self, scale: Vector3<S>)
        ensures
            final(self)@ == (TransformView { scale, has_changed: true, ..old(self)@ }),
    {
        self.scale = scale;
        self.has_changed = true;
    }

    pub fn get_scale(&self) -> (r: Vector3<S>)
        ensures
            r == self@.scale,
    {
        self.scale
    }

    /// The local-to-world matrix, recomputed first if and only if the cache
    /// is stale. A read of a fresh cache leaves the component bit-identical.
    pub fn get_local_to_world_matrix(&mut self, t: EulerTrig<S>) -> (r: Matrix4x4<S>)
        ensures
            final(self)@ == Self::checked_view(old(self)@, t),
            r == final(self)@.local_to_world,
    {
        self.matrix_check(t);
        self.local_to_world
    }

    /// The world-to-local matrix, under the same cache discipline.
    pub fn get_world_to_local_matrix(&mut self, t: EulerTrig<S>) -> (r: Matrix4x4<S>)
        ensures
            final(self)@ == Self::checked_view(old(self)@, t),
            r == final(self)@.world_to_local,
    {
        self.matrix_check(t);
        self.world_to_local
    }

    /// Map a local-space point to world space through the (fresh)
    /// local-to-world matrix, with homogeneous weight 1 and the perspective
    /// divide.
    pub fn transform_point(&mut self, point: Vector3<S>, t: EulerTrig<S>) -> (r: Vector3<S>)
        ensures
            final(self)@ == Self::checked_view(old(self)@, t),
            r == Matrix4x4::transform_point_spec(final(self)@.local_to_world, point),
    {
        self.matrix_check(t);
        self.local_to_world.transform_point(point)
    }

    /// Map a world-space point back to local space through the (fresh)
    /// world-to-local matrix.
    pub fn inv_transform_point(&mut self, point: Vector3<S>, t: EulerTrig<S>) -> (r: Vector3<S>)
        ensures
            final(self)@ == Self::checked_view(old(self)@, t),
            r == Matrix4x4::transform_point_spec(final(self)@.world_to_local, point),
    {
        self.matrix_check(t);
        self.world_to_local.transform_point(point)
    }

    /// Recompute the caches when stale, and clear the flag.
    fn matrix_check(&mut self, t: EulerTrig<S>)
        ensures
            final(self)@ == Self::checked_view(old(self)@, t),
    {
        if self.has_changed {
            self.compute_matrices(t);
            self.has_changed = false;
        }
    }

    /// Rebuild both cached matrices from the current fields. Apply order:
    /// scale, then rotation z-x-y, then translation; the world-to-local
    /// matrix is the same chain reversed with each factor inverted.
    fn compute_matrices(&mut self, t: EulerTrig<S>)
        ensures
            final(self)@ == (TransformView {
                local_to_world: Self::local_to_world_spec(old(self)@.position, old(self)@.scale, t),
                world_to_local: Self::world_to_local_spec(old(self)@.position, old(self)@.scale, t),
                ..old(self)@
            }),
    {
        self.local_to_world = Matrix4x4::translation(self.position).mul(
            &Matrix4x4::y_rotation(t.cos_y, t.sin_y).mul(
                &Matrix4x4::x_rotation(t.cos_x, t.sin_x).mul(
                    &Matrix4x4::z_rotation(t.cos_z, t.sin_z).mul(&Matrix4x4::scale(self.scale)),
                ),
            ),
        );
        self.world_to_local = Matrix4x4::scale(Vector3::scalar_div(S::one(), self.scale)).mul(
            &Matrix4x4::z_rotation(t.cos_z, t.sin_z.negate()).mul(
                &Matrix4x4::x_rotation(t.cos_x, t.sin_x.negate()).mul(
                    &Matrix4x4::y_rotation(t.cos_y, t.sin_y.negate()).mul(
                        &Matrix4x4::translation(self.position.neg()),
                    ),
                ),
            ),
        );
    }
}

} // verus!
