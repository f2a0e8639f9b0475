use vstd::prelude::*;
use vstd::math::abs;
use crate::physics::PhysHandle;
use crate::tilemap::{TileBlit, TileMap};

verus! {

/// A point or offset in entity-local space, in milli-units: component
/// parameters and geometry are plain integers in thousandths of a world unit
/// (or radian), so the behaviour laws are exact.
#[derive(PartialEq, Eq, Clone, Copy, Debug, Structural)]
pub struct MilliVec2 {
    pub x: i64,
    pub y: i64,
}

/// The per-tick reading a face-the-pointer behaviour works from, in
/// milli-radians: the shortest signed angle from the entity's heading to the
/// pointer, the entity's angular velocity, and its effective angular inertia
/// (milli-units). The reading is absent when the pointer direction is
/// undefined, e.g. the pointer sits exactly on the entity.
#[derive(PartialEq, Eq, Clone, Copy, Debug, Structural)]
pub struct FaceMouseInput {
    pub angle: i64,
    pub angvel: i64,
    pub inertia: i64,
}

/// The per-entity readings gathered by the host before one simulation tick.
#[derive(Clone, Copy, Debug)]
pub struct TickInput {
    pub face: Option<FaceMouseInput>,
}

/// A physics mutation owed to an entity's body for the current tick. The host
/// applies each effect to the body the handle resolves to, in order, before
/// the physics step.
#[derive(PartialEq, Eq, Clone, Copy, Debug, Structural)]
pub enum TickEffect {
    /// Apply a linear impulse of magnitude `power` (milli-units) along the
    /// body's current heading.
    Thrust { body: PhysHandle, power: i64 },
    /// Scale the body's linear velocity by `factor` thousandths.
    Brake { body: PhysHandle, factor: u32 },
    /// Apply the torque impulse `torque` (milli-units).
    Torque { body: PhysHandle, torque: i128 },
}

/// A presentation-prep effect owed once per frame. The host applies each
/// effect to its camera or to the surface of the entity named by `object`.
#[derive(PartialEq, Eq, Clone, Copy, Debug, Structural)]
pub enum FrameEffect {
    /// Point the camera's look-at target at the body's centre of mass.
    CameraTarget { body: PhysHandle },
    /// Copy one tile source image into the surface of entity `object`.
    Blit { object: usize, blit: TileBlit },
}

/// The thrust flame segment a motion behaviour draws while boosting, as two
/// endpoints in entity-local milli-units; the host transforms them by the
/// entity's pose.
#[derive(PartialEq, Eq, Clone, Copy, Debug, Structural)]
pub struct ThrustMarker {
    pub ax: i64,
    pub ay: i64,
    pub bx: i64,
    pub by: i64,
}

/// Half-length of the thrust flame segment, in milli-units.
pub const THRUST_REACH: i64 = 2000;

/// Sideways offset of the thrust flame segment, in milli-units.
pub const THRUST_SIDE: i64 = 50;

/// The critically-damped steering torque, in milli-units: magnitude
/// `|angle - angvel| * inertia / (|angle| + 1000)` with the sign of
/// `(angle - angvel) * inertia`. The `+ 1000` (one full unit) bounds the gain
/// for small errors; division truncates toward zero.
pub open spec fn spec_steering_torque(angle: int, angvel: int, inertia: int) -> int {
    let magnitude = ((abs(angle - angvel) * abs(inertia)) / (abs(angle) + 1000)) as int;
    if (angle - angvel < 0) != (inertia < 0) {
        -magnitude
    } else {
        magnitude
    }
}

/// Computes the steering torque a face-the-pointer behaviour applies.
pub fn steering_torque(angle: i64, angvel: i64, inertia: i64) -> (r: i128)
    ensures
        r as int == spec_steering_torque(angle as int, angvel as int, inertia as int),
{
    let a = angle as i128;
    let v = angvel as i128;
    let n = inertia as i128;
    let diff = a - v;
    let diff_mag = (if diff < 0 {
        -diff
    } else {
        diff
    }) as u128;
    let inertia_mag = (if n < 0 {
        -n
    } else {
        n
    }) as u128;
    let den = (if a < 0 {
        -a
    } else {
        a
    }) as u128 + 1000;
    proof {
        assert(diff_mag <= 0xffff_ffff_ffff_ffff);
        assert(inertia_mag <= 0x8000_0000_0000_0000);
        vstd::arithmetic::mul::lemma_mul_upper_bound(
            diff_mag as int,
            0xffff_ffff_ffff_ffff,
            inertia_mag as int,
            0x8000_0000_0000_0000,
        );
    }
    let magnitude = (diff_mag * inertia_mag) / den;
    proof {
        vstd::arithmetic::div_mod::lemma_fundamental_div_mod(
            (diff_mag * inertia_mag) as int,
            den as int,
        );
        vstd::arithmetic::mul::lemma_mul_inequality(1000, den as int, magnitude as int);
        assert(1000 * (magnitude as int) <= (diff_mag * inertia_mag) as int);
    }
    if (diff < 0) != (n < 0) {
        -(magnitude as i128)
    } else {
        magnitude as i128
    }
}

/// One behaviour of an entity: a closed set of variants, each carrying only
/// the state that behaviour needs. A component belongs to exactly one entity
/// and acts on the world only through the effects it returns.
#[derive(Clone, Debug)]
pub enum Component {
    /// Keeps the camera centred on the entity, once per frame.
    CameraFollow,
    /// Thrust of strength `power` while the boost action is held, and a
    /// velocity scale of `brake` thousandths while the slow action is held;
    /// `emitter` is where the thrust flame sits on the entity (milli-units).
    Motion { power: i64, brake: u32, emitter: MilliVec2 },
    /// Steers the entity toward the pointer with a damped torque.
    FaceMouse,
    /// A tile map whose dirty cells are flushed to the entity's surface once
    /// per frame.
    TileMap(TileMap),
}

/// The effects one component contributes in the pre-physics phase of a tick.
/// No current behaviour acts in this phase.
pub open spec fn spec_fixed_effects(c: Component) -> Seq<TickEffect> {
    Seq::empty()
}

/// The effects one component contributes in the physics phase of a tick,
/// given its entity's body, the held actions, and the per-tick reading.
pub open spec fn spec_physics_effects(
    c: Component,
    body: PhysHandle,
    boost: bool,
    slow: bool,
    face: Option<FaceMouseInput>,
) -> Seq<TickEffect> {
    match c {
        Component::CameraFollow => Seq::empty(),
        Component::Motion { power, brake, emitter } => (if boost {
            seq![TickEffect::Thrust { body, power }]
        } else {
            Seq::empty()
        }) + (if slow {
            seq![TickEffect::Brake { body, factor: brake }]
        } else {
            Seq::empty()
        }),
        Component::FaceMouse => match face {
            Option::None => Seq::empty(),
            Option::Some(f) => seq![
                TickEffect::Torque {
                    body,
                    torque: spec_steering_torque(
                        f.angle as int,
                        f.angvel as int,
                        f.inertia as int,
                    ) as i128,
                },
            ],
        },
        Component::TileMap(_) => Seq::empty(),
    }
}

/// The effects one component contributes in the frame phase, given its
/// entity's body and index.
pub open spec fn spec_frame_effects(c: Component, body: PhysHandle, object: usize) -> Seq<
    FrameEffect,
> {
    match c {
        Component::CameraFollow => seq![FrameEffect::CameraTarget { body }],
        Component::Motion { .. } => Seq::empty(),
        Component::FaceMouse => Seq::empty(),
        Component::TileMap(tm) => tm@.blits_spec().map_values(
            |b: TileBlit| FrameEffect::Blit { object, blit: b },
        ),
    }
}

/// How a component's state after the frame phase relates to its state before:
/// a tile map comes out flushed, every other variant is unchanged.
pub open spec fn spec_frame_result(pre: Component, post: Component) -> bool {
    match pre {
        Component::TileMap(tm) => match post {
            Component::TileMap(tm2) => tm2@ == tm@.flushed_spec(),
            _ => false,
        },
        _ => post == pre,
    }
}

/// Is it safe to compute this component's thrust marker without overflow?
/// Only a motion emitter within half a range of the integer limits qualifies;
/// every realistic emitter offset does.
pub open spec fn spec_draw_safe(c: Component) -> bool {
    match c {
        Component::Motion { power, brake, emitter } => i64::MIN + THRUST_SIDE <= emitter.x
            && i64::MIN + THRUST_REACH <= emitter.y && emitter.y <= i64::MAX - THRUST_REACH,
        _ => true,
    }
}

/// The thrust marker one component contributes after its entity is drawn.
pub open spec fn spec_draw(c: Component, boost: bool) -> Option<ThrustMarker> {
    match c {
        Component::Motion { power, brake, emitter } => if boost {
            Some(
                ThrustMarker {
                    ax: (emitter.x - THRUST_SIDE) as i64,
                    ay: (emitter.y + THRUST_REACH) as i64,
                    bx: (emitter.x - THRUST_SIDE) as i64,
                    by: (emitter.y - THRUST_REACH) as i64,
                },
            )
        } else {
            None
        },
        _ => None,
    }
}

impl Component {
    /// The pre-physics phase of a tick: runs before any physics-affecting
    /// logic of the same tick. No current behaviour contributes effects here.
    pub fn fixed_update(&self) -> (r: Vec<TickEffect>)
        ensures
            r@ == spec_fixed_effects(*self),
    {
        match self {
            Self::CameraFollow => Vec::new(),
            Self::Motion { .. } => Vec::new(),
            Self::FaceMouse => Vec::new(),
            Self::TileMap(_) => Vec::new(),
        }
    }

    /// The physics phase of a tick: the effects this behaviour owes its
    /// entity's body, given the held actions and the per-tick reading. With an
    /// undefined pointer direction (`face` absent) a face-the-pointer
    /// behaviour applies no torque at all.
    pub fn physics_update(
        &self,
        body: PhysHandle,
        boost: bool,
        slow: bool,
        face: Option<FaceMouseInput>,
    ) -> (r: Vec<TickEffect>)
        ensures
            r@ == spec_physics_effects(*self, body, boost, slow, face),
            self is FaceMouse && face is None ==> r@ == Seq::<TickEffect>::empty(),
    {
        let mut r: Vec<TickEffect> = Vec::new();
        match self {
            Self::CameraFollow => {},
            Self::Motion { power, brake, emitter: _ } => {
                if boost {
                    r.push(TickEffect::Thrust { body, power: *power });
                }
                if slow {
                    r.push(TickEffect::Brake { body, factor: *brake });
                }
                proof {
                    assert(r@ =~= spec_physics_effects(*self, body, boost, slow, face));
                }
            },
            Self::FaceMouse => {
                match face {
                    None => {},
                    Some(f) => {
                        let torque = steering_torque(f.angle, f.angvel, f.inertia);
                        r.push(TickEffect::Torque { body, torque });
                    },
                }
            },
            Self::TileMap(_) => {},
        }
        r
    }

    /// The frame phase, once per frame after all ticks: a camera follower
    /// retargets the camera, and a tile map flushes its dirty cells into
    /// sub-image copies for the entity's surface, coming out clean.
    pub fn frame_update(&mut self, body: PhysHandle, object: usize) -> (r: Vec<FrameEffect>)
        ensures
            r@ == spec_frame_effects(*old(self), body, object),
            spec_frame_result(*old(self), *final(self)),
    {
        match self {
            Self::CameraFollow => {
                let mut r: Vec<FrameEffect> = Vec::new();
                r.push(FrameEffect::CameraTarget { body });
                proof {
                    assert(r@ =~= spec_frame_effects(*old(self), body, object));
                }
                r
            },
            Self::Motion { .. } => Vec::new(),
            Self::FaceMouse => Vec::new(),
            Self::TileMap(tm) => {
                let blits = tm.update_to_texture();
                let mut r: Vec<FrameEffect> = Vec::new();
                let mut i: usize = 0;
                while i < blits.len()
                    invariant
                        0 <= i <= blits@.len(),
                        r@ == blits@.take(i as int).map_values(
                            |b: TileBlit| FrameEffect::Blit { object, blit: b },
                        ),
                    decreases blits@.len() - i,
                {
                    r.push(FrameEffect::Blit { object, blit: blits[i] });
                    proof {
                        assert(blits@.take(i + 1).map_values(
                            |b: TileBlit| FrameEffect::Blit { object, blit: b },
                        ) =~= blits@.take(i as int).map_values(
                            |b: TileBlit| FrameEffect::Blit { object, blit: b },
                        ).push(FrameEffect::Blit { object, blit: blits@[i as int] }));
                    }
                    i = i + 1;
                }
                proof {
                    assert(blits@.take(blits@.len() as int) =~= blits@);
                }
                r
            },
        }
    }

    /// Called just after the entity this behaviour belongs to is drawn: the
    /// thrust flame segment to draw, present exactly while a motion behaviour
    /// sees the boost action held.
    pub fn draw(&self, boost: bool) -> (r: Option<ThrustMarker>)
        requires
            spec_draw_safe(*self),
        ensures
            r == spec_draw(*self, boost),
    {
        match self {
            Self::Motion { power: _, brake: _, emitter } => {
                if boost {
                    Some(
                        ThrustMarker {
                            ax: emitter.x - THRUST_SIDE,
                            ay: emitter.y + THRUST_REACH,
                            bx: emitter.x - THRUST_SIDE,
                            by: emitter.y - THRUST_REACH,
                        },
                    )
                } else {
                    None
                }
            },
            _ => None,
        }
    }
}

} // verus!
