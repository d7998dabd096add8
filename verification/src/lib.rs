//! A small 3D math kernel for a scene-graph style renderer front-end:
//! homogeneous vector/matrix algebra, a world-transform component with a
//! lazily recomputed matrix cache, and a camera component that derives and
//! caches a perspective projection together with its inverse.
//!
//! The whole kernel is generic over an abstract [`scalar::Scalar`] type.
//! Every arithmetic step is mirrored by a spec-level function, so each
//! operation carries an exact contract describing the value it produces,
//! and the [`laws`] module proves the algebraic identities the design
//! promises: the identity matrix acts trivially, matrix composition is
//! associative, the transform's two matrix chains cancel, a point round
//! trips through them, and the perspective projection cancels against its
//! cofactor inverse.
//!
//! The crate ships a verified `i64` instantiation (wrapping integer
//! arithmetic); callers may instantiate the kernel with any scalar of their
//! own, for example an IEEE-754 float wrapper, and inherit the same
//! structural guarantees.

pub mod camera;
pub mod component;
pub mod game_object;
pub mod laws;
pub mod matrix4x4;
pub mod scalar;
pub mod transform;
pub mod vector3;
pub mod vector4;

pub use camera::Camera;
pub use component::Component;
pub use game_object::GameObject;
pub use matrix4x4::Matrix4x4;
pub use scalar::Scalar;
pub use transform::Transform;
pub use vector3::Vector3;
pub use vector4::Vector4;
