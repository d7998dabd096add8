//! Tests of the transform and camera cache state machines and of the
//! game-object container, on the exact `i64` instantiation.

use scene_math::transform::EulerTrig;
use scene_math::{Camera, Component, GameObject, Matrix4x4, Transform, Vector3, Vector4};
use std::cell::Cell;
use std::rc::Rc;

fn v3(x: i64, y: i64, z: i64) -> Vector3<i64> {
    Vector3::new(x, y, z)
}

fn v4(x: i64, y: i64, z: i64, w: i64) -> Vector4<i64> {
    Vector4::new(x, y, z, w)
}

/// The trigonometry of a zero rotation on every axis.
fn no_rotation() -> EulerTrig<i64> {
    EulerTrig { cos_x: 1, sin_x: 0, cos_y: 1, sin_y: 0, cos_z: 1, sin_z: 0 }
}

/// The trigonometry of a quarter turn about the z axis only.
fn quarter_turn_z() -> EulerTrig<i64> {
    EulerTrig { cos_x: 1, sin_x: 0, cos_y: 1, sin_y: 0, cos_z: 0, sin_z: 1 }
}

#[test]
fn new_transform_has_identity_matrices() {
    let mut t: Transform<i64> = Transform::new();
    assert_eq!(t.get_position(), v3(0, 0, 0));
    assert_eq!(t.get_rotation(), v3(0, 0, 0));
    assert_eq!(t.get_scale(), v3(1, 1, 1));
    let id: Matrix4x4<i64> = Matrix4x4::identity();
    assert_eq!(t.get_local_to_world_matrix(no_rotation()), id);
    assert_eq!(t.get_world_to_local_matrix(no_rotation()), id);
}

#[test]
fn transform_setters_and_getters_round_trip() {
    let mut t: Transform<i64> = Transform::new();
    t.set_position(v3(1, 2, 3));
    t.set_rotation(v3(0, 0, 90));
    t.set_scale(v3(4, 5, 6));
    assert_eq!(t.get_position(), v3(1, 2, 3));
    assert_eq!(t.get_rotation(), v3(0, 0, 90));
    assert_eq!(t.get_scale(), v3(4, 5, 6));
}

#[test]
fn reading_a_matrix_twice_without_a_setter_is_bit_identical() {
    let mut t: Transform<i64> = Transform::new();
    t.set_position(v3(7, 8, 9));
    let first = t.get_local_to_world_matrix(no_rotation());
    // The cache is fresh now, so a second read must not recompute: passing
    // entirely different trigonometry changes nothing about the result.
    let second = t.get_local_to_world_matrix(quarter_turn_z());
    assert_eq!(first, second);
    let inv_first = t.get_world_to_local_matrix(quarter_turn_z());
    let inv_second = t.get_world_to_local_matrix(no_rotation());
    assert_eq!(inv_first, inv_second);
}

#[test]
fn setter_marks_the_cache_stale_again() {
    let mut t: Transform<i64> = Transform::new();
    t.set_position(v3(1, 0, 0));
    let first = t.get_local_to_world_matrix(no_rotation());
    t.set_position(v3(2, 0, 0));
    let second = t.get_local_to_world_matrix(no_rotation());
    assert_eq!(first.r0.w, 1);
    assert_eq!(second.r0.w, 2);
}

#[test]
fn translation_only_transform_round_trips_points_exactly() {
    let mut t: Transform<i64> = Transform::new();
    t.set_position(v3(1, 2, 3));
    let p = v3(4, 5, 6);
    let world = t.transform_point(p, no_rotation());
    assert_eq!(world, v3(5, 7, 9));
    assert_eq!(t.inv_transform_point(world, no_rotation()), p);
}

#[test]
fn quarter_turn_rotates_x_axis_onto_y_axis() {
    let mut t: Transform<i64> = Transform::new();
    t.set_rotation(v3(0, 0, 90));
    let world = t.transform_point(v3(1, 0, 0), quarter_turn_z());
    assert_eq!(world, v3(0, 1, 0));
    assert_eq!(t.inv_transform_point(v3(0, 1, 0), quarter_turn_z()), v3(1, 0, 0));
}

#[test]
fn composed_transform_round_trips_exactly() {
    // Scale, quarter turn about z, then translate: all integer-exact, so
    // the forward and backward maps must cancel on the nose.
    let mut t: Transform<i64> = Transform::new();
    t.set_position(v3(10, -2, 7));
    t.set_rotation(v3(0, 0, 90));
    t.set_scale(v3(1, 1, 1));
    let p = v3(3, -4, 5);
    let world = t.transform_point(p, quarter_turn_z());
    assert_eq!(t.inv_transform_point(world, quarter_turn_z()), p);
    let l2w = t.get_local_to_world_matrix(quarter_turn_z());
    let w2l = t.get_world_to_local_matrix(quarter_turn_z());
    assert_eq!(l2w.mul(&w2l), Matrix4x4::identity());
    assert_eq!(w2l.mul(&l2w), Matrix4x4::identity());
}

#[test]
fn mirrored_transform_matrices_cancel_exactly() {
    // Scale components -1 and 1 are their own exact reciprocals, so an
    // unrotated mirroring transform cancels on the nose even in integers.
    let mut t: Transform<i64> = Transform::new();
    t.set_position(v3(5, 6, 7));
    t.set_scale(v3(-1, 1, -1));
    let l2w = t.get_local_to_world_matrix(no_rotation());
    let w2l = t.get_world_to_local_matrix(no_rotation());
    assert_eq!(l2w.mul(&w2l), Matrix4x4::identity());
    let p = v3(-3, 11, 2);
    let world = t.transform_point(p, no_rotation());
    assert_eq!(world, v3(3 + 5, 11 + 6, -2 + 7));
    assert_eq!(t.inv_transform_point(world, no_rotation()), p);
}

#[test]
fn camera_stores_and_updates_its_parameters() {
    let mut c: Camera<i64> = Camera::new(90, 1, 1, 3);
    assert_eq!(c.get_fov(), 90);
    assert_eq!(c.get_aspect(), 1);
    assert_eq!(c.get_near(), 1);
    assert_eq!(c.get_far(), 3);
    c.set_fov(60);
    c.set_aspect(2);
    c.set_near(5);
    c.set_far(50);
    assert_eq!(c.get_fov(), 60);
    assert_eq!(c.get_aspect(), 2);
    assert_eq!(c.get_near(), 5);
    assert_eq!(c.get_far(), 50);
}

#[test]
fn camera_projection_is_computed_on_first_read() {
    // fov 90 degrees: tan(fov / 2) is exactly one. near 1, far 3, aspect 1:
    // height = width = 2, so every projection entry is integral.
    let mut c: Camera<i64> = Camera::new(90, 1, 1, 3);
    let p = c.get_projection_matrix(1);
    assert_eq!(p.r0, v4(1, 0, 0, 0));
    assert_eq!(p.r1, v4(0, 1, 0, 0));
    assert_eq!(p.r2, v4(0, 0, -2, -3));
    assert_eq!(p.r3, v4(0, 0, -1, 0));
}

#[test]
fn camera_reads_are_idempotent_until_a_setter_runs() {
    let mut c: Camera<i64> = Camera::new(90, 1, 1, 3);
    let first = c.get_projection_matrix(1);
    // Fresh cache: different trigonometry must not change the answer.
    let second = c.get_projection_matrix(5);
    assert_eq!(first, second);
    c.set_far(5);
    let third = c.get_projection_matrix(1);
    assert_eq!(third.r2, v4(0, 0, -1, -2));
}

#[test]
fn camera_maps_near_and_far_planes_to_canonical_depths() {
    let mut c: Camera<i64> = Camera::new(90, 1, 1, 3);
    assert_eq!(c.transform_point(v3(0, 0, -1), 1), v3(0, 0, -1));
    assert_eq!(c.transform_point(v3(0, 0, -3), 1), v3(0, 0, 1));
}

struct CountingComponent {
    inits: Rc<Cell<u32>>,
    updates: Rc<Cell<u32>>,
}

impl Component for CountingComponent {
    fn init(&mut self) {
        self.inits.set(self.inits.get() + 1);
    }

    fn update(&mut self) {
        self.updates.set(self.updates.get() + 1);
    }
}

#[test]
fn game_object_initialises_and_updates_components() {
    let inits = Rc::new(Cell::new(0));
    let updates = Rc::new(Cell::new(0));
    let mut g = GameObject::new("Test Object");
    assert_eq!(g.name, "Test Object");
    g.add_component(CountingComponent { inits: inits.clone(), updates: updates.clone() });
    g.add_component(CountingComponent { inits: inits.clone(), updates: updates.clone() });
    assert_eq!(inits.get(), 2);
    assert_eq!(updates.get(), 0);
    g.update();
    assert_eq!(updates.get(), 2);
    g.update();
    assert_eq!(updates.get(), 4);
}

/// A component wrapping a kernel transform; the default lifecycle hooks do
/// nothing, so any library type can act as a component.
struct Placeholder(Transform<i64>);

impl Component for Placeholder {
}

#[test]
fn game_object_holds_kernel_components() {
    let mut g = GameObject::new("scene");
    g.add_component(Placeholder(Transform::new()));
    g.update();
    assert_eq!(g.name, "scene");
}
