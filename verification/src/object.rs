use vstd::prelude::*;
use crate::component::Component;
use crate::physics::{PhysHandle, Physics};

verus! {

/// An entity: two handles into the physics world — one rigid body, one
/// collider — and the ordered behaviours dispatched over it each phase.
/// The entity never owns physics data; the world does.
pub struct Object {
    pub rigid_body: PhysHandle,
    pub collider: PhysHandle,
    pub components: Vec<Component>,
}

impl Object {
    /// Builds an entity by registering its rigid body and collider with the
    /// physics world: the returned entity's handles are the fresh handles of
    /// exactly that registration, so they resolve for as long as the body and
    /// collider stay registered.
    pub fn new(
        physics_world: &mut Physics,
        rigid_body: rapier2d::dynamics::RigidBody,
        collider: rapier2d::geometry::Collider,
        components: Vec<Component>,
    ) -> (o: Object)
        ensures
            o.components == components,
            !old(physics_world).bodies().contains(o.rigid_body.raw()),
            !old(physics_world).colliders().contains(o.collider.raw()),
            final(physics_world).bodies() == old(physics_world).bodies().insert(
                o.rigid_body.raw(),
            ),
            final(physics_world).colliders() == old(physics_world).colliders().insert(
                o.collider.raw(),
            ),
    {
        let (body_handle, collider_handle) = physics_world.add_rigidbody(rigid_body, collider);
        Object { rigid_body: body_handle, collider: collider_handle, components }
    }
}

} // verus!
