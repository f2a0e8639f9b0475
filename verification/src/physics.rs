use vstd::prelude::*;

verus! {

#[verifier::external_type_specification]
#[verifier::external_body]
pub struct ExPhysicsWorld(rapier2d::pipeline::PhysicsWorld);

#[verifier::external_type_specification]
#[verifier::external_body]
pub struct ExRigidBody(rapier2d::dynamics::RigidBody);

#[verifier::external_type_specification]
#[verifier::external_body]
pub struct ExCollider(rapier2d::geometry::Collider);

/// The raw parts of the handles of the rigid bodies registered in `w`:
/// the handle of a live body, split into its arena index and generation.
pub uninterp spec fn live_bodies(w: rapier2d::pipeline::PhysicsWorld) -> Set<(u32, u32)>;

/// The raw parts of the handles of the colliders registered in `w`.
pub uninterp spec fn live_colliders(w: rapier2d::pipeline::PhysicsWorld) -> Set<(u32, u32)>;

/// Relies on rapier2d's `PhysicsWorld::new`: a fresh world starts with empty
/// rigid-body and collider sets.
#[verifier::external_body]
fn ex_world_new() -> (w: rapier2d::pipeline::PhysicsWorld)
    ensures
        live_bodies(w) == Set::<(u32, u32)>::empty(),
        live_colliders(w) == Set::<(u32, u32)>::empty(),
{
    rapier2d::pipeline::PhysicsWorld::new()
}

/// Relies on rapier2d's `PhysicsWorld::insert`: it registers the body and the
/// collider (attached to that body) and returns handles that are fresh — the
/// body and collider sets each grow by exactly that one new handle.
#[verifier::external_body]
fn ex_world_insert(
    w: &mut rapier2d::pipeline::PhysicsWorld,
    body: rapier2d::dynamics::RigidBody,
    collider: rapier2d::geometry::Collider,
) -> (h: ((u32, u32), (u32, u32)))
    ensures
        !live_bodies(*old(w)).contains(h.0),
        !live_colliders(*old(w)).contains(h.1),
        live_bodies(*final(w)) == live_bodies(*old(w)).insert(h.0),
        live_colliders(*final(w)) == live_colliders(*old(w)).insert(h.1),
{
    let (bh, ch) = w.insert(body, collider);
    (bh.into_raw_parts(), ch.into_raw_parts())
}

/// Relies on rapier2d's `PhysicsWorld::step`: it advances the simulation by
/// the engine's own fixed time step and neither registers nor removes any
/// rigid body or collider.
#[verifier::external_body]
fn ex_world_step(w: &mut rapier2d::pipeline::PhysicsWorld)
    ensures
        live_bodies(*final(w)) == live_bodies(*old(w)),
        live_colliders(*final(w)) == live_colliders(*old(w)),
{
    w.step()
}

/// Relies on rapier2d's `RigidBodySet::get`: a handle resolves to a body
/// exactly while it is registered; an unregistered handle yields an absence,
/// never a fault.
#[verifier::external_body]
fn ex_world_get_body<'a>(
    w: &'a rapier2d::pipeline::PhysicsWorld,
    index: u32,
    generation: u32,
) -> (r: Option<&'a rapier2d::dynamics::RigidBody>)
    ensures
        r is Some <==> live_bodies(*w).contains((index, generation)),
{
    w.bodies.get(rapier2d::dynamics::RigidBodyHandle::from_raw_parts(index, generation))
}

/// Relies on rapier2d's `RigidBodySet::get_mut`: the same resolution as
/// `RigidBodySet::get`; writing through the returned body never changes which
/// handles are registered.
#[verifier::external_body]
fn ex_world_get_body_mut<'a>(
    w: &'a mut rapier2d::pipeline::PhysicsWorld,
    index: u32,
    generation: u32,
) -> (r: Option<&'a mut rapier2d::dynamics::RigidBody>)
    ensures
        r is Some <==> live_bodies(*old(w)).contains((index, generation)),
        live_bodies(*final(w)) == live_bodies(*old(w)),
        live_colliders(*final(w)) == live_colliders(*old(w)),
{
    w.bodies.get_mut(rapier2d::dynamics::RigidBodyHandle::from_raw_parts(index, generation))
}

/// Relies on rapier2d's `ColliderSet::get`: a handle resolves to a collider
/// exactly while it is registered.
#[verifier::external_body]
fn ex_world_get_collider<'a>(
    w: &'a rapier2d::pipeline::PhysicsWorld,
    index: u32,
    generation: u32,
) -> (r: Option<&'a rapier2d::geometry::Collider>)
    ensures
        r is Some <==> live_colliders(*w).contains((index, generation)),
{
    w.colliders.get(rapier2d::geometry::ColliderHandle::from_raw_parts(index, generation))
}

/// Relies on rapier2d's `ColliderSet::get_mut`: the same resolution as
/// `ColliderSet::get`; writing through the returned collider never changes
/// which handles are registered.
#[verifier::external_body]
fn ex_world_get_collider_mut<'a>(
    w: &'a mut rapier2d::pipeline::PhysicsWorld,
    index: u32,
    generation: u32,
) -> (r: Option<&'a mut rapier2d::geometry::Collider>)
    ensures
        r is Some <==> live_colliders(*old(w)).contains((index, generation)),
        live_bodies(*final(w)) == live_bodies(*old(w)),
        live_colliders(*final(w)) == live_colliders(*old(w)),
{
    w.colliders.get_mut(rapier2d::geometry::ColliderHandle::from_raw_parts(index, generation))
}

/// An opaque, stable reference to a physics resource (rigid body or collider).
/// It does not own the resource: the physics world does.
#[derive(PartialEq, Eq, Clone, Copy, Debug, Structural)]
pub struct PhysHandle {
    pub index: u32,
    pub generation: u32,
}

impl PhysHandle {
    /// The handle as the raw pair the physics engine identifies it by.
    pub open spec fn raw(self) -> (u32, u32) {
        (self.index, self.generation)
    }
}

/// The single authority over rigid-body and collider lifetime and stepping.
/// Entities hold handles into it and never own physics data themselves.
pub struct Physics {
    world: rapier2d::pipeline::PhysicsWorld,
}

impl Physics {
    /// The handles of the rigid bodies currently registered, as raw pairs.
    pub closed spec fn bodies(self) -> Set<(u32, u32)> {
        live_bodies(self.world)
    }

    /// The handles of the colliders currently registered, as raw pairs.
    pub closed spec fn colliders(self) -> Set<(u32, u32)> {
        live_colliders(self.world)
    }

    /// A world with no bodies and no colliders.
    pub fn new() -> (r: Physics)
        ensures
            r.bodies() == Set::<(u32, u32)>::empty(),
            r.colliders() == Set::<(u32, u32)>::empty(),
    {
        Physics { world: ex_world_new() }
    }

    /// Registers a rigid body together with its collider (attached to that
    /// body) and returns their handles. The handles are fresh — they alias no
    /// live resource — and stay valid until explicitly removed.
    pub fn add_rigidbody(
        &mut self,
        rigid_body: rapier2d::dynamics::RigidBody,
        collider: rapier2d::geometry::Collider,
    ) -> (h: (PhysHandle, PhysHandle))
        ensures
            !old(self).bodies().contains(h.0.raw()),
            !old(self).colliders().contains(h.1.raw()),
            final(self).bodies() == old(self).bodies().insert(h.0.raw()),
            final(self).colliders() == old(self).colliders().insert(h.1.raw()),
    {
        let (b, c) = ex_world_insert(&mut self.world, rigid_body, collider);
        (
            PhysHandle { index: b.0, generation: b.1 },
            PhysHandle { index: c.0, generation: c.1 },
        )
    }

    /// Advances the simulation by exactly one fixed tick's worth of time,
    /// using the engine's internal fixed time step. Every registered handle
    /// stays registered.
    pub fn step(&mut self)
        ensures
            final(self).bodies() == old(self).bodies(),
            final(self).colliders() == old(self).colliders(),
    {
        ex_world_step(&mut self.world);
    }

    /// Resolves a rigid-body handle. A handle obtained from `add_rigidbody`
    /// resolves for as long as the body is registered; anything else is an
    /// absence, never a fault.
    pub fn get_rigid_body(&self, handle: PhysHandle) -> (r: Option<
        &rapier2d::dynamics::RigidBody,
    >)
        ensures
            r is Some <==> self.bodies().contains(handle.raw()),
    {
        ex_world_get_body(&self.world, handle.index, handle.generation)
    }

    /// Resolves a rigid-body handle for mutation. Resolution is as for
    /// `get_rigid_body`; no write through the result changes which handles
    /// are registered.
    pub fn get_rigid_body_mut(&mut self, handle: PhysHandle) -> (r: Option<
        &mut rapier2d::dynamics::RigidBody,
    >)
        ensures
            r is Some <==> old(self).bodies().contains(handle.raw()),
            final(self).bodies() == old(self).bodies(),
            final(self).colliders() == old(self).colliders(),
    {
        ex_world_get_body_mut(&mut self.world, handle.index, handle.generation)
    }

    /// Resolves a collider handle, as `get_rigid_body` does for bodies.
    pub fn get_collider(&self, handle: PhysHandle) -> (r: Option<
        &rapier2d::geometry::Collider,
    >)
        ensures
            r is Some <==> self.colliders().contains(handle.raw()),
    {
        ex_world_get_collider(&self.world, handle.index, handle.generation)
    }

    /// Resolves a collider handle for mutation, as `get_rigid_body_mut` does
    /// for bodies.
    pub fn get_collider_mut(&mut self, handle: PhysHandle) -> (r: Option<
        &mut rapier2d::geometry::Collider,
    >)
        ensures
            r is Some <==> old(self).colliders().contains(handle.raw()),
            final(self).bodies() == old(self).bodies(),
            final(self).colliders() == old(self).colliders(),
    {
        ex_world_get_collider_mut(&mut self.world, handle.index, handle.generation)
    }
}

} // verus!
