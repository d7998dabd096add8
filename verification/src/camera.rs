//! A perspective camera component: field of view, aspect ratio and the two
//! clip planes, together with a lazily recomputed cache of the projection
//! matrix and its inverse.
//!
//! The cache discipline is the same two-state machine as the transform
//! component's, except that a camera is constructed stale, so the first
//! matrix access always computes. The abstract scalar cannot evaluate the
//! tangent that the frustum derivation needs, so every accessor that may
//! recompute takes `tan(fov / 2)` (the field of view halved, in radians)
//! from the caller.

use vstd::prelude::*;
use crate::scalar::Scalar;
use crate::vector3::Vector3;
use crate::matrix4x4::Matrix4x4;

verus! {

/// The abstract state of a [`Camera`]: its scalar fields, the staleness
/// flag, and the two cached matrices.
pub struct CameraView<S> {
    pub fov: S,
    pub aspect: S,
    pub near: S,
    pub far: S,
    pub has_changed: bool,
    pub projection: Matrix4x4<S>,
    pub inv_projection: Matrix4x4<S>,
}

/// The camera component. The cached matrices are consistent with the scalar
/// fields if and only if `has_changed` is false. Degenerate parameters (a
/// non-positive field of view, `near >= far`) are not validated; they
/// propagate as junk scalar values exactly as the matrix layer produces
/// them.
pub struct Camera<S> {
    /// Vertical field of view, by convention in degrees.
    fov: S,
    /// Width over height.
    aspect: S,
    near: S,
    far: S,
    has_changed: bool,
    projection: Matrix4x4<S>,
    inv_projection: Matrix4x4<S>,
}

impl<S: Scalar> View for Camera<S> {
    type V = CameraView<S>;

    closed spec fn view(&self) -> CameraView<S> {
        CameraView {
            fov: self.fov,
            aspect: self.aspect,
            near: self.near,
            far: self.far,
            has_changed: self.has_changed,
            projection: self.projection,
            inv_projection: self.inv_projection,
        }
    }
}

impl<S: Scalar> Camera<S> {
    /// What the recompute step stores as the projection: the symmetric
    /// frustum of height `2 * near * tan(fov / 2)` and width `height *
    /// aspect`, mapped through the standard perspective matrix.
    pub open spec fn projection_spec(
        aspect: S,
        near: S,
        far: S,
        tan_half_fov: S,
    ) -> Matrix4x4<S> {
        let two = S::plus_spec(S::one_spec(), S::one_spec());
        let height = S::times_spec(S::times_spec(two, near), tan_half_fov);
        let width = S::times_spec(height, aspect);
        Matrix4x4::perspective_projection_sym_spec(width, height, near, far)
    }

    /// The state after a recompute on the given tangent: the projection
    /// rebuilt from the current scalar fields, its inverse derived through
    /// the generic cofactor inverse, the staleness flag cleared.
    pub open spec fn recomputed_view(v: CameraView<S>, tan_half_fov: S) -> CameraView<S> {
        let projection = Self::projection_spec(v.aspect, v.near, v.far, tan_half_fov);
        CameraView {
            has_changed: false,
            projection,
            inv_projection: Matrix4x4::inverse_spec(projection),
            ..v
        }
    }

    /// The state an accessor leaves behind: untouched when the cache was
    /// already fresh, recomputed otherwise.
    pub open spec fn checked_view(v: CameraView<S>, tan_half_fov: S) -> CameraView<S> {
        if v.has_changed {
            Self::recomputed_view(v, tan_half_fov)
        } else {
            v
        }
    }

    /// A camera with the given frustum parameters. It starts stale with
    /// identity caches, so the first matrix access always computes.
    pub fn new(fov: S, aspect: S, near: S, far: S) -> (r: Camera<S>)
        ensures
            r@ == (CameraView {
                fov,
                aspect,
                near,
                far,
                has_changed: true,
                projection: Matrix4x4::<S>::identity_spec(),
                inv_projection: Matrix4x4::<S>::identity_spec(),
            }),
    {
        Camera {
            fov,
            aspect,
            near,
            far,
            has_changed: true,
            projection: Matrix4x4::identity(),
            inv_projection: Matrix4x4::identity(),
        }
    }

    pub fn set_fov(&mut self, fov: S)
        ensures
            final(self)@ == (CameraView { fov, has_changed: true, ..old(self)@ }),
    {
        self.fov = fov;
        self.has_changed = true;
    }

    pub fn get_fov(&self) -> (r: S)
        ensures
            r == self@.fov,
    {
        self.fov
    }

    pub fn set_aspect(&mut self, aspect: S)
        ensures
            final(self)@ == (CameraView { aspect, has_changed: true, ..old(self)@ }),
    {
        self.aspect = aspect;
        self.has_changed = true;
    }

    pub fn get_aspect(&self) -> (r: S)
        ensures
            r == self@.aspect,
    {
        self.aspect
    }

    pub fn set_near(&mut self, near: S)
        ensures
            final(self)@ == (CameraView { near, has_changed: true, ..old(self)@ }),
    {
        self.near = near;
        self.has_changed = true;
    }

    pub fn get_near(&self) -> (r: S)
        ensures
            r == self@.near,
    {
        self.near
    }

    pub fn set_far(&mut self, far: S)
        ensures
            final(self)@ == (CameraView { far, has_changed: true, ..old(self)@ }),
    {
        self.far = far;
        self.has_changed = true;
    }

    pub fn get_far(&self) -> (r: S)
        ensures
            r == self@.far,
    {
        self.far
    }

    /// The projection matrix, recomputed first if and only if the cache is
    /// stale. A read of a fresh cache leaves the component bit-identical.
    pub fn get_projection_matrix(&mut self, tan_half_fov: S) -> (r: Matrix4x4<S>)
        ensures
            final(self)@ == Self::checked_view(old(self)@, tan_half_fov),
            r == final(self)@.projection,
    {
        self.matrix_check(tan_half_fov);
        self.projection
    }

    /// The inverse projection matrix, under the same cache discipline.
    pub fn get_inv_projection_matrix(&mut self, tan_half_fov: S) -> (r: Matrix4x4<S>)
        ensures
            final(self)@ == Self::checked_view(old(self)@, tan_half_fov),
            r == final(self)@.inv_projection,
    {
        self.matrix_check(tan_half_fov);
        self.inv_projection
    }

    /// Map a camera-space point into normalized device coordinates: through
    /// the (fresh) projection with homogeneous weight 1, then the
    /// perspective divide by the resulting `w`.
    pub fn transform_point(&mut self, point: Vector3<S>, tan_half_fov: S) -> (r: Vector3<S>)
        ensures
            final(self)@ == Self::checked_view(old(self)@, tan_half_fov),
            r == Matrix4x4::transform_point_spec(final(self)@.projection, point),
    {
        self.matrix_check(tan_half_fov);
        self.projection.transform_point(point)
    }

    /// Map a point in normalized device coordinates back to camera space
    /// through the (fresh) inverse projection, with the same homogeneous
    /// divide.
    pub fn inv_transform_point(&mut self, point: Vector3<S>, tan_half_fov: S) -> (r: Vector3<S>)
        ensures
            final(self)@ == Self::checked_view(old(self)@, tan_half_fov),
            r == Matrix4x4::transform_point_spec(final(self)@.inv_projection, point),
    {
        self.matrix_check(tan_half_fov);
        self.inv_projection.transform_point(point)
    }

    /// Recompute the caches when stale, and clear the flag.
    fn matrix_check(&mut self, tan_half_fov: S)
        ensures
            final(self)@ == Self::checked_view(old(self)@, tan_half_fov),
    {
        if self.has_changed {
            self.compute_matrices(tan_half_fov);
            self.has_changed = false;
        }
    }

    /// Rebuild the projection and its inverse from the current fields.
    fn compute_matrices(&mut self, tan_half_fov: S)
        ensures
            final(self)@ == (CameraView {
                has_changed: false,
                projection: Self::projection_spec(
                    old(self)@.aspect,
                    old(self)@.near,
                    old(self)@.far,
                    tan_half_fov,
                ),
                inv_projection: Matrix4x4::inverse_spec(
                    Self::projection_spec(
                        old(self)@.aspect,
                        old(self)@.near,
                        old(self)@.far,
                        tan_half_fov,
                    ),
                ),
                ..old(self)@
            }),
    {
        let two = S::one().plus(S::one());
        let height = two.times(self.near).times(tan_half_fov);
        let width = height.times(self.aspect);

        self.projection = Matrix4x4::perspective_projection_sym(width, height, self.near, self.far);
        self.inv_projection = self.projection.inverse();

        self.has_changed = false;
    }
}

} // verus!
