use arcade_core::object::Object;
use arcade_core::physics::{PhysHandle, Physics};
use rapier2d::dynamics::RigidBodyBuilder;
use rapier2d::geometry::ColliderBuilder;

#[test]
fn registered_handles_resolve() {
    let mut world = Physics::new();
    let (body, collider) = world.add_rigidbody(
        RigidBodyBuilder::dynamic().build(),
        ColliderBuilder::ball(0.5).build(),
    );
    assert!(world.get_rigid_body(body).is_some());
    assert!(world.get_collider(collider).is_some());
    assert!(world.get_rigid_body_mut(body).is_some());
    assert!(world.get_collider_mut(collider).is_some());
}

#[test]
fn unregistered_handles_are_absent_not_fatal() {
    let world = Physics::new();
    let bogus = PhysHandle { index: 9, generation: 9 };
    assert!(world.get_rigid_body(bogus).is_none());
    assert!(world.get_collider(bogus).is_none());
}

#[test]
fn handles_are_never_aliased() {
    let mut world = Physics::new();
    let (b1, c1) = world.add_rigidbody(
        RigidBodyBuilder::dynamic().build(),
        ColliderBuilder::ball(0.5).build(),
    );
    let (b2, c2) = world.add_rigidbody(
        RigidBodyBuilder::fixed().build(),
        ColliderBuilder::cuboid(1.0, 1.0).build(),
    );
    assert_ne!(b1, b2);
    assert_ne!(c1, c2);
}

#[test]
fn stepping_keeps_every_handle_valid() {
    let mut world = Physics::new();
    let (body, collider) = world.add_rigidbody(
        RigidBodyBuilder::dynamic().ccd_enabled(true).can_sleep(false).build(),
        ColliderBuilder::ball(0.5).build(),
    );
    for _ in 0..10 {
        world.step();
    }
    assert!(world.get_rigid_body(body).is_some());
    assert!(world.get_collider(collider).is_some());
}

#[test]
fn a_step_advances_by_the_engine_fixed_timestep() {
    // A body pushed sideways moves between steps: the step really runs the
    // engine rather than handing state back unchanged.
    let mut world = Physics::new();
    let (body, _) = world.add_rigidbody(
        RigidBodyBuilder::dynamic()
            .can_sleep(false)
            .gravity_scale(0.0)
            .linvel(rapier2d::math::Vector::new(60.0, 0.0))
            .build(),
        ColliderBuilder::ball(0.5).build(),
    );
    let x0 = world.get_rigid_body(body).unwrap().translation().x;
    world.step();
    let x1 = world.get_rigid_body(body).unwrap().translation().x;
    assert!(x1 > x0);
}

#[test]
fn entities_register_their_body_and_collider() {
    let mut world = Physics::new();
    let o = Object::new(
        &mut world,
        RigidBodyBuilder::dynamic().build(),
        ColliderBuilder::ball(0.5).build(),
        Vec::new(),
    );
    assert!(world.get_rigid_body(o.rigid_body).is_some());
    assert!(world.get_collider(o.collider).is_some());
    assert!(o.components.is_empty());
}
