use vstd::prelude::*;
use vstd::arithmetic::div_mod::{lemma_fundamental_div_mod, lemma_mod_bound, lemma_div_pos_is_pos};
use crate::component::{
    spec_fixed_effects, spec_frame_effects, spec_frame_result, spec_physics_effects, Component,
    FrameEffect, TickEffect, TickInput,
};
use crate::keybinds::{KeyAction, Keybinds, PressedState};
use crate::object::Object;
use crate::physics::{PhysHandle, Physics};

verus! {

/// Simulation ticks per second of wall-clock time.
pub const FIXED_TICKS_PER_SEC: u32 = 60;

/// The most ticks one frame may run: a longer stall does not fully catch up,
/// the bound keeps a hitch from snowballing into more hitches.
pub const MAX_TICKS_PER_FRAME: u32 = 5;

/// Sub-tick units per tick: frame time is fed to the scheduler as an integer
/// count of millionths of a tick, so tick accounting is exact.
pub const SUBTICKS_PER_TICK: u64 = 1000000;

/// What one call of the scheduler does to the tick accumulator: the elapsed
/// time joins the accumulator; while paused no tick runs and nothing else
/// changes; otherwise the whole ticks owed run, capped at
/// `MAX_TICKS_PER_FRAME`, and the accumulator keeps exactly the fractional
/// tick — when the cap cut the count, the surplus whole ticks are discarded,
/// not carried. Yields (ticks to run, accumulator afterwards).
pub open spec fn spec_advance(acc: int, dt: int, paused: bool) -> (int, int) {
    if paused {
        (0, acc + dt)
    } else {
        let owed = (acc + dt) / (SUBTICKS_PER_TICK as int);
        let ticks = if owed <= MAX_TICKS_PER_FRAME as int {
            owed
        } else {
            MAX_TICKS_PER_FRAME as int
        };
        (ticks, (acc + dt) % (SUBTICKS_PER_TICK as int))
    }
}

/// The pre-physics effects of the components of one entity, in order.
pub open spec fn components_fixed_effects(cs: Seq<Component>) -> Seq<TickEffect>
    decreases cs.len(),
{
    if cs.len() == 0 {
        Seq::empty()
    } else {
        components_fixed_effects(cs.drop_last()) + spec_fixed_effects(cs.last())
    }
}

/// The pre-physics effects of every entity, in entity-list order.
pub open spec fn objects_fixed_effects(objs: Seq<Object>) -> Seq<TickEffect>
    decreases objs.len(),
{
    if objs.len() == 0 {
        Seq::empty()
    } else {
        objects_fixed_effects(objs.drop_last()) + components_fixed_effects(
            objs.last().components@,
        )
    }
}

/// The physics-phase effects of the components of one entity, in order.
pub open spec fn components_physics_effects(
    cs: Seq<Component>,
    body: PhysHandle,
    input: TickInput,
    boost: bool,
    slow: bool,
) -> Seq<TickEffect>
    decreases cs.len(),
{
    if cs.len() == 0 {
        Seq::empty()
    } else {
        components_physics_effects(cs.drop_last(), body, input, boost, slow)
            + spec_physics_effects(cs.last(), body, boost, slow, input.face)
    }
}

/// The physics-phase effects of every entity, in entity-list order, each
/// entity read together with its own per-tick input.
pub open spec fn objects_physics_effects(
    objs: Seq<Object>,
    inputs: Seq<TickInput>,
    boost: bool,
    slow: bool,
) -> Seq<TickEffect>
    decreases objs.len(),
{
    if objs.len() == 0 || inputs.len() == 0 {
        Seq::empty()
    } else {
        objects_physics_effects(objs.drop_last(), inputs.drop_last(), boost, slow)
            + components_physics_effects(
            objs.last().components@,
            objs.last().rigid_body,
            inputs.last(),
            boost,
            slow,
        )
    }
}

/// Everything one unpaused tick owes the physics bodies: first the
/// pre-physics phase over every entity, then the physics phase over every
/// entity.
pub open spec fn spec_tick_effects(
    objs: Seq<Object>,
    inputs: Seq<TickInput>,
    boost: bool,
    slow: bool,
) -> Seq<TickEffect> {
    objects_fixed_effects(objs) + objects_physics_effects(objs, inputs, boost, slow)
}

/// The frame-phase effects of the components of one entity, in order.
pub open spec fn components_frame_effects(
    cs: Seq<Component>,
    body: PhysHandle,
    object: usize,
) -> Seq<FrameEffect>
    decreases cs.len(),
{
    if cs.len() == 0 {
        Seq::empty()
    } else {
        components_frame_effects(cs.drop_last(), body, object) + spec_frame_effects(
            cs.last(),
            body,
            object,
        )
    }
}

/// The frame-phase effects of every entity, in entity-list order.
pub open spec fn objects_frame_effects(objs: Seq<Object>) -> Seq<FrameEffect>
    decreases objs.len(),
{
    if objs.len() == 0 {
        Seq::empty()
    } else {
        objects_frame_effects(objs.drop_last()) + components_frame_effects(
            objs.last().components@,
            objs.last().rigid_body,
            (objs.len() - 1) as usize,
        )
    }
}

/// How an entity's state after the frame phase relates to its state before:
/// handles kept, and each component frame-advanced in place.
pub open spec fn spec_object_frame_result(pre: Object, post: Object) -> bool {
    &&& post.rigid_body == pre.rigid_body
    &&& post.collider == pre.collider
    &&& post.components@.len() == pre.components@.len()
    &&& forall|j: int|
        0 <= j < pre.components@.len() ==> spec_frame_result(
            pre.components@[j],
            #[trigger] post.components@[j],
        )
}

/// The simulation: the fixed-tick scheduler state, the input map, the physics
/// world, and the entity list, orchestrated per tick and per frame.
pub struct App {
    pub paused: bool,
    pub debug: bool,
    /// The tick accumulator, in millionths of a tick (`SUBTICKS_PER_TICK`).
    pub fixed_tick_time: u64,
    pub keybinds: Keybinds,
    pub physics_world: Physics,
    pub objects: Vec<Object>,
}

impl App {
    /// Do every entity's two handles currently resolve in the physics world?
    pub open spec fn handles_resolve(self) -> bool {
        forall|i: int|
            0 <= i < self.objects@.len() ==> self.physics_world.bodies().contains(
                (#[trigger] self.objects@[i]).rigid_body.raw(),
            ) && self.physics_world.colliders().contains(self.objects@[i].collider.raw())
    }

    /// A fresh simulation: running, no debug overlay, an empty accumulator,
    /// stock keybinds, an empty physics world, and no entities.
    pub fn new() -> (r: App)
        ensures
            !r.paused,
            !r.debug,
            r.fixed_tick_time == 0,
            r.objects@.len() == 0,
            r.physics_world.bodies() == Set::<(u32, u32)>::empty(),
            r.physics_world.colliders() == Set::<(u32, u32)>::empty(),
            forall|a: KeyAction| r.keybinds.spec_state(a) == PressedState::Off,
            r.keybinds.boost.keys@ == seq![87u32, 265u32],
            r.keybinds.pause.keys@ == seq![256u32],
            r.keybinds.slow.keys@ == Seq::<u32>::empty(),
            r.keybinds.debug.keys@ == Seq::<u32>::empty(),
            r.handles_resolve(),
    {
        App {
            paused: false,
            debug: false,
            fixed_tick_time: 0,
            keybinds: Keybinds::default(),
            physics_world: Physics::new(),
            objects: Vec::new(),
        }
    }

    /// Registers an entity: its rigid body and collider join the physics
    /// world, and the entity joins the end of the entity list. Every handle
    /// that resolved before still does, and the new entity's handles resolve.
    pub fn add_object(
        &mut self,
        rigid_body: rapier2d::dynamics::RigidBody,
        collider: rapier2d::geometry::Collider,
        components: Vec<Component>,
    ) -> (idx: usize)
        ensures
            idx == old(self).objects@.len(),
            final(self).objects@.len() == old(self).objects@.len() + 1,
            forall|i: int|
                0 <= i < old(self).objects@.len() ==> final(self).objects@[i] == old(
                    self,
                ).objects@[i],
            final(self).objects@[idx as int].components == components,
            final(self).physics_world.bodies() == old(self).physics_world.bodies().insert(
                final(self).objects@[idx as int].rigid_body.raw(),
            ),
            final(self).physics_world.colliders() == old(self).physics_world.colliders().insert(
                final(self).objects@[idx as int].collider.raw(),
            ),
            !old(self).physics_world.bodies().contains(
                final(self).objects@[idx as int].rigid_body.raw(),
            ),
            !old(self).physics_world.colliders().contains(
                final(self).objects@[idx as int].collider.raw(),
            ),
            old(self).handles_resolve() ==> final(self).handles_resolve(),
            final(self).paused == old(self).paused,
            final(self).debug == old(self).debug,
            final(self).fixed_tick_time == old(self).fixed_tick_time,
            final(self).keybinds == old(self).keybinds,
    {
        let idx = self.objects.len();
        let o = Object::new(&mut self.physics_world, rigid_body, collider, components);
        self.objects.push(o);
        idx
    }

    /// Accounts the elapsed frame time `dt` (in millionths of a tick) and
    /// yields how many fixed ticks the caller must now run, per
    /// `spec_advance`: never more than `MAX_TICKS_PER_FRAME` however large
    /// `dt` is, and none at all while paused — pausing only accrues time.
    /// For each tick owed the caller runs the tick phases, applies their
    /// effects, and steps the physics world once.
    pub fn check_fixed_tick(&mut self, dt: u64) -> (ticks: u32)
        requires
            old(self).fixed_tick_time + dt <= u64::MAX,
        ensures
            (ticks as int, final(self).fixed_tick_time as int) == spec_advance(
                old(self).fixed_tick_time as int,
                dt as int,
                old(self).paused,
            ),
            ticks <= MAX_TICKS_PER_FRAME,
            old(self).paused ==> ticks == 0 && final(self).fixed_tick_time == old(
                self,
            ).fixed_tick_time + dt,
            final(self).paused == old(self).paused,
            final(self).debug == old(self).debug,
            final(self).keybinds == old(self).keybinds,
            final(self).physics_world == old(self).physics_world,
            final(self).objects == old(self).objects,
    {
        self.fixed_tick_time = self.fixed_tick_time + dt;
        if self.paused {
            return 0;
        }
        let owed = self.fixed_tick_time / SUBTICKS_PER_TICK;
        let ticks: u32 = if owed < MAX_TICKS_PER_FRAME as u64 {
            owed as u32
        } else {
            MAX_TICKS_PER_FRAME
        };
        self.fixed_tick_time = self.fixed_tick_time % SUBTICKS_PER_TICK;
        ticks
    }

    /// One unpaused tick's component phases: the pre-physics phase over every
    /// entity, then the physics phase over every entity, with `inputs`
    /// supplying each entity's per-tick reading. Yields the physics effects
    /// owed, in dispatch order; the caller applies them and then steps the
    /// physics world exactly once.
    #[verifier::loop_isolation(false)]
    pub fn fixed_tick(&self, inputs: &Vec<TickInput>) -> (fx: Vec<TickEffect>)
        requires
            inputs@.len() == self.objects@.len(),
        ensures
            fx@ == spec_tick_effects(
                self.objects@,
                inputs@,
                self.keybinds.spec_is_pressed(KeyAction::Boost),
                self.keybinds.spec_is_pressed(KeyAction::Slow),
            ),
    {
        let boost = self.keybinds.get(KeyAction::Boost).is_pressed();
        let slow = self.keybinds.get(KeyAction::Slow).is_pressed();
        let mut fx: Vec<TickEffect> = Vec::new();
        let mut i: usize = 0;
        while i < self.objects.len()
            invariant
                0 <= i <= self.objects@.len(),
                fx@ == objects_fixed_effects(self.objects@.take(i as int)),
            decreases self.objects@.len() - i,
        {
            let o = &self.objects[i];
            let mut j: usize = 0;
            while j < o.components.len()
                invariant
                    0 <= j <= o.components@.len(),
                    fx@ == objects_fixed_effects(self.objects@.take(i as int))
                        + components_fixed_effects(o.components@.take(j as int)),
                decreases o.components@.len() - j,
            {
                let mut e = o.components[j].fixed_update();
                fx.append(&mut e);
                proof {
                    assert(o.components@.take(j + 1).drop_last() =~= o.components@.take(j as int));
                    assert(o.components@.take(j + 1).last() == o.components@[j as int]);
                }
                j = j + 1;
            }
            proof {
                assert(o.components@.take(o.components@.len() as int) =~= o.components@);
                assert(self.objects@.take(i + 1).drop_last() =~= self.objects@.take(i as int));
                assert(self.objects@.take(i + 1).last() == self.objects@[i as int]);
            }
            i = i + 1;
        }
        proof {
            assert(self.objects@.take(self.objects@.len() as int) =~= self.objects@);
        }
        let ghost fixed_part = fx@;
        let mut i: usize = 0;
        while i < self.objects.len()
            invariant
                0 <= i <= self.objects@.len(),
                fx@ == fixed_part + objects_physics_effects(
                    self.objects@.take(i as int),
                    inputs@.take(i as int),
                    boost,
                    slow,
                ),
            decreases self.objects@.len() - i,
        {
            let o = &self.objects[i];
            let input = inputs[i];
            let mut j: usize = 0;
            while j < o.components.len()
                invariant
                    0 <= j <= o.components@.len(),
                    fx@ == fixed_part + objects_physics_effects(
                        self.objects@.take(i as int),
                        inputs@.take(i as int),
                        boost,
                        slow,
                    ) + components_physics_effects(
                        o.components@.take(j as int),
                        o.rigid_body,
                        input,
                        boost,
                        slow,
                    ),
                decreases o.components@.len() - j,
            {
                let mut e = o.components[j].physics_update(o.rigid_body, boost, slow, input.face);
                fx.append(&mut e);
                proof {
                    assert(o.components@.take(j + 1).drop_last() =~= o.components@.take(j as int));
                    assert(o.components@.take(j + 1).last() == o.components@[j as int]);
                }
                j = j + 1;
            }
            proof {
                assert(o.components@.take(o.components@.len() as int) =~= o.components@);
                assert(self.objects@.take(i + 1).drop_last() =~= self.objects@.take(i as int));
                assert(self.objects@.take(i + 1).last() == self.objects@[i as int]);
                assert(inputs@.take(i + 1).drop_last() =~= inputs@.take(i as int));
                assert(inputs@.take(i + 1).last() == inputs@[i as int]);
            }
            i = i + 1;
        }
        proof {
            assert(self.objects@.take(self.objects@.len() as int) =~= self.objects@);
            assert(inputs@.take(inputs@.len() as int) =~= inputs@);
        }
        fx
    }

    /// Steps the physics world exactly once, after a tick's effects have been
    /// applied. Every entity handle that resolved before keeps resolving.
    pub fn step_physics(&mut self)
        ensures
            final(self).physics_world.bodies() == old(self).physics_world.bodies(),
            final(self).physics_world.colliders() == old(self).physics_world.colliders(),
            final(self).objects == old(self).objects,
            final(self).paused == old(self).paused,
            final(self).debug == old(self).debug,
            final(self).fixed_tick_time == old(self).fixed_tick_time,
            final(self).keybinds == old(self).keybinds,
            old(self).handles_resolve() ==> final(self).handles_resolve(),
    {
        self.physics_world.step();
    }

    /// Once per frame, after all ticks: refreshes the input map from the key
    /// codes currently held, toggles pause and the debug overlay on their
    /// just-pressed edges, and runs the frame phase over every entity — also
    /// while paused. Yields the presentation effects owed, in dispatch order;
    /// tile maps come out flushed. The caller applies the effects and then
    /// draws every entity.
    #[verifier::loop_isolation(false)]
    pub fn frame_tick(&mut self, down_keys: &Vec<u32>) -> (fx: Vec<FrameEffect>)
        ensures
            final(self).keybinds == old(self).keybinds.spec_update(down_keys@),
            final(self).paused == (old(self).paused != (old(self).keybinds.spec_update(
                down_keys@,
            ).spec_state(KeyAction::Pause) == PressedState::JustPressed)),
            final(self).debug == (old(self).debug != (old(self).keybinds.spec_update(
                down_keys@,
            ).spec_state(KeyAction::Debug) == PressedState::JustPressed)),
            fx@ == objects_frame_effects(old(self).objects@),
            final(self).objects@.len() == old(self).objects@.len(),
            forall|i: int|
                0 <= i < old(self).objects@.len() ==> spec_object_frame_result(
                    old(self).objects@[i],
                    #[trigger] final(self).objects@[i],
                ),
            final(self).fixed_tick_time == old(self).fixed_tick_time,
            final(self).physics_world == old(self).physics_world,
            old(self).handles_resolve() ==> final(self).handles_resolve(),
    {
        self.keybinds.update(down_keys);
        if self.keybinds.get(KeyAction::Pause).is_just_pressed() {
            self.paused = !self.paused;
        }
        if self.keybinds.get(KeyAction::Debug).is_just_pressed() {
            self.debug = !self.debug;
        }
        let ghost orig = self.objects@;
        let ghost mid = *self;
        let mut fx: Vec<FrameEffect> = Vec::new();
        let mut i: usize = 0;
        while i < self.objects.len()
            invariant
                0 <= i <= orig.len(),
                self.objects@.len() == orig.len(),
                self.paused == mid.paused,
                self.debug == mid.debug,
                self.keybinds == mid.keybinds,
                self.fixed_tick_time == mid.fixed_tick_time,
                self.physics_world == mid.physics_world,
                fx@ == objects_frame_effects(orig.take(i as int)),
                forall|k: int|
                    0 <= k < i ==> spec_object_frame_result(
                        orig[k],
                        #[trigger] self.objects@[k],
                    ),
                forall|k: int| i <= k < orig.len() ==> self.objects@[k] == orig[k],
            decreases orig.len() - i,
        {
            let body = self.objects[i].rigid_body;
            let components_len = self.objects[i].components.len();
            let mut j: usize = 0;
            while j < components_len
                invariant
                    0 <= j <= orig[i as int].components@.len(),
                    components_len == orig[i as int].components@.len(),
                    body == orig[i as int].rigid_body,
                    self.objects@.len() == orig.len(),
                    self.paused == mid.paused,
                    self.debug == mid.debug,
                    self.keybinds == mid.keybinds,
                    self.fixed_tick_time == mid.fixed_tick_time,
                    self.physics_world == mid.physics_world,
                    self.objects@[i as int].rigid_body == orig[i as int].rigid_body,
                    self.objects@[i as int].collider == orig[i as int].collider,
                    self.objects@[i as int].components@.len() == orig[i as int].components@.len(),
                    fx@ == objects_frame_effects(orig.take(i as int)) + components_frame_effects(
                        orig[i as int].components@.take(j as int),
                        body,
                        i,
                    ),
                    forall|k: int|
                        0 <= k < j ==> spec_frame_result(
                            orig[i as int].components@[k],
                            #[trigger] self.objects@[i as int].components@[k],
                        ),
                    forall|k: int|
                        j <= k < orig[i as int].components@.len() ==> self.objects@[
                            i as int
                        ].components@[k] == orig[i as int].components@[k],
                    forall|k: int|
                        0 <= k < i ==> spec_object_frame_result(
                            orig[k],
                            #[trigger] self.objects@[k],
                        ),
                    forall|k: int| i < k < orig.len() ==> self.objects@[k] == orig[k],
                decreases orig[i as int].components@.len() - j,
            {
                let mut e = self.objects[i].components[j].frame_update(body, i);
                fx.append(&mut e);
                proof {
                    assert(orig[i as int].components@.take(j + 1).drop_last() =~= orig[
                        i as int
                    ].components@.take(j as int));
                    assert(orig[i as int].components@.take(j + 1).last() == orig[
                        i as int
                    ].components@[j as int]);
                }
                j = j + 1;
            }
            proof {
                assert(orig[i as int].components@.take(orig[i as int].components@.len() as int)
                    =~= orig[i as int].components@);
                assert(orig.take(i + 1).drop_last() =~= orig.take(i as int));
                assert(orig.take(i + 1).last() == orig[i as int]);
            }
            i = i + 1;
        }
        proof {
            assert(orig.take(orig.len() as int) =~= orig);
        }
        fx
    }

    /// Resolves an entity's rigid-body handle: present exactly while the body
    /// is registered — always, for an entity of a simulation whose handles
    /// resolve.
    pub fn get_rigid_body(&self, object: &Object) -> (r: Option<
        &rapier2d::dynamics::RigidBody,
    >)
        ensures
            r is Some <==> self.physics_world.bodies().contains(object.rigid_body.raw()),
    {
        self.physics_world.get_rigid_body(object.rigid_body)
    }

    /// Resolves an entity's rigid-body handle for mutation; which handles are
    /// registered does not change.
    pub fn get_rigid_body_mut(&mut self, object: &Object) -> (r: Option<
        &mut rapier2d::dynamics::RigidBody,
    >)
        ensures
            r is Some <==> old(self).physics_world.bodies().contains(object.rigid_body.raw()),
            final(self).physics_world.bodies() == old(self).physics_world.bodies(),
            final(self).physics_world.colliders() == old(self).physics_world.colliders(),
            final(self).paused == old(self).paused,
            final(self).debug == old(self).debug,
            final(self).fixed_tick_time == old(self).fixed_tick_time,
            final(self).keybinds == old(self).keybinds,
            final(self).objects == old(self).objects,
    {
        self.physics_world.get_rigid_body_mut(object.rigid_body)
    }

    /// Resolves an entity's collider handle, as `get_rigid_body` does.
    pub fn get_collider(&self, object: &Object) -> (r: Option<&rapier2d::geometry::Collider>)
        ensures
            r is Some <==> self.physics_world.colliders().contains(object.collider.raw()),
    {
        self.physics_world.get_collider(object.collider)
    }

    /// Resolves an entity's collider handle for mutation, as
    /// `get_rigid_body_mut` does.
    pub fn get_collider_mut(&mut self, object: &Object) -> (r: Option<
        &mut rapier2d::geometry::Collider,
    >)
        ensures
            r is Some <==> old(self).physics_world.colliders().contains(object.collider.raw()),
            final(self).physics_world.bodies() == old(self).physics_world.bodies(),
            final(self).physics_world.colliders() == old(self).physics_world.colliders(),
            final(self).paused == old(self).paused,
            final(self).debug == old(self).debug,
            final(self).fixed_tick_time == old(self).fixed_tick_time,
            final(self).keybinds == old(self).keybinds,
            final(self).objects == old(self).objects,
    {
        self.physics_world.get_collider_mut(object.collider)
    }
}

/// The scheduler run over a whole sequence of unpaused frames: total ticks
/// run, and the accumulator afterwards.
pub open spec fn spec_run(acc: int, dts: Seq<int>) -> (int, int)
    decreases dts.len(),
{
    if dts.len() == 0 {
        (0, acc)
    } else {
        let step = spec_advance(acc, dts[0], false);
        let rest = spec_run(step.1, dts.drop_first());
        (step.0 + rest.0, rest.1)
    }
}

/// The sum of a sequence of frame times.
pub open spec fn spec_sum(dts: Seq<int>) -> int
    decreases dts.len(),
{
    if dts.len() == 0 {
        0
    } else {
        dts[0] + spec_sum(dts.drop_first())
    }
}

/// Does no frame of the run owe more ticks than the per-frame cap?
pub open spec fn spec_never_clamped(acc: int, dts: Seq<int>) -> bool
    decreases dts.len(),
{
    dts.len() == 0 || ((acc + dts[0]) / (SUBTICKS_PER_TICK as int) <= MAX_TICKS_PER_FRAME as int
        && spec_never_clamped((acc + dts[0]) % (SUBTICKS_PER_TICK as int), dts.drop_first()))
}

/// Law: while no single frame overflows the tick cap, the scheduler conserves
/// time exactly — the ticks run so far times the tick period, plus what the
/// accumulator holds, equals the time fed in.
pub proof fn lemma_ticks_conserved(acc: int, dts: Seq<int>)
    requires
        0 <= acc < SUBTICKS_PER_TICK as int,
        forall|i: int| 0 <= i < dts.len() ==> dts[i] >= 0,
        spec_never_clamped(acc, dts),
    ensures
        0 <= spec_run(acc, dts).1 < SUBTICKS_PER_TICK as int,
        (SUBTICKS_PER_TICK as int) * spec_run(acc, dts).0 + spec_run(acc, dts).1 == acc
            + spec_sum(dts),
    decreases dts.len(),
{
    let sub = SUBTICKS_PER_TICK as int;
    if dts.len() == 0 {
    } else {
        let t = acc + dts[0];
        lemma_fundamental_div_mod(t, sub);
        lemma_mod_bound(t, sub);
        lemma_div_pos_is_pos(t, sub);
        assert(forall|i: int| 0 <= i < dts.drop_first().len() ==> dts.drop_first()[i] >= 0);
        lemma_ticks_conserved(t % sub, dts.drop_first());
    }
}

/// Law: a run of frames that together owe exactly `n` whole ticks, none of
/// them clamped, runs exactly `n` ticks — no tick is lost or invented — and
/// drains the accumulator.
pub proof fn lemma_no_tick_loss(dts: Seq<int>, n: int)
    requires
        forall|i: int| 0 <= i < dts.len() ==> dts[i] >= 0,
        spec_never_clamped(0, dts),
        spec_sum(dts) == n * (SUBTICKS_PER_TICK as int),
        0 <= n,
    ensures
        spec_run(0, dts).0 == n,
        spec_run(0, dts).1 == 0,
{
    let sub = SUBTICKS_PER_TICK as int;
    lemma_ticks_conserved(0, dts);
    let total = spec_run(0, dts).0;
    let rest = spec_run(0, dts).1;
    assert(sub * total + rest == n * sub);
    assert(total == n && rest == 0) by (nonlinear_arith)
        requires
            sub * total + rest == n * sub,
            0 <= rest < sub,
            sub == 1000000,
    ;
}

} // verus!
