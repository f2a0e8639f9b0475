use arcade_core::component::{
    steering_torque, Component, FaceMouseInput, FrameEffect, MilliVec2, ThrustMarker, TickEffect,
};
use arcade_core::physics::PhysHandle;
use arcade_core::tilemap::{Tile, TileCoord, TileMap, TileType};

fn handle() -> PhysHandle {
    PhysHandle { index: 7, generation: 0 }
}

fn motion() -> Component {
    Component::Motion { power: 100_000, brake: 975, emitter: MilliVec2 { x: -8000, y: 0 } }
}

#[test]
fn no_behaviour_acts_before_the_physics_phase() {
    assert!(motion().fixed_update().is_empty());
    assert!(Component::FaceMouse.fixed_update().is_empty());
    assert!(Component::CameraFollow.fixed_update().is_empty());
}

#[test]
fn boost_thrusts_along_the_heading() {
    let fx = motion().physics_update(handle(), true, false, None);
    assert_eq!(fx, vec![TickEffect::Thrust { body: handle(), power: 100_000 }]);
}

#[test]
fn slow_brakes_the_velocity() {
    let fx = motion().physics_update(handle(), false, true, None);
    assert_eq!(fx, vec![TickEffect::Brake { body: handle(), factor: 975 }]);
}

#[test]
fn boost_and_slow_together_thrust_then_brake() {
    let fx = motion().physics_update(handle(), true, true, None);
    assert_eq!(
        fx,
        vec![
            TickEffect::Thrust { body: handle(), power: 100_000 },
            TickEffect::Brake { body: handle(), factor: 975 },
        ]
    );
}

#[test]
fn idle_motion_does_nothing() {
    assert!(motion().physics_update(handle(), false, false, None).is_empty());
}

#[test]
fn pointer_on_the_entity_applies_no_torque() {
    // The pointer sits exactly on the entity: the direction toward it is
    // undefined, the reading is absent, and the tick applies no torque.
    let fx = Component::FaceMouse.physics_update(handle(), true, true, None);
    assert!(fx.is_empty());
}

#[test]
fn steering_torque_is_damped_and_signed() {
    // angle 2 rad, no spin, inertia 3: (2 - 0) * 3 / (2 + 1) = 2.
    assert_eq!(steering_torque(2000, 0, 3000), 2000);
    // Overshooting spin reverses the sign: (1 - 3) * 2 / (1 + 1) = -2.
    assert_eq!(steering_torque(1000, 3000, 2000), -2000);
    // Aligned and still: no correction at all.
    assert_eq!(steering_torque(0, 0, 5000), 0);
    // Truncating division: (1.5 - 0) * 1 / (1.5 + 1) = 0.6 -> 600.
    assert_eq!(steering_torque(1500, 0, 1000), 600);
}

#[test]
fn face_mouse_applies_the_steering_torque() {
    let reading = FaceMouseInput { angle: 2000, angvel: 0, inertia: 3000 };
    let fx = Component::FaceMouse.physics_update(handle(), false, false, Some(reading));
    assert_eq!(fx, vec![TickEffect::Torque { body: handle(), torque: 2000 }]);
}

#[test]
fn camera_follow_retargets_once_per_frame() {
    let mut c = Component::CameraFollow;
    let fx = c.frame_update(handle(), 3);
    assert_eq!(fx, vec![FrameEffect::CameraTarget { body: handle() }]);
    // And nothing during the tick phases.
    assert!(c.physics_update(handle(), true, true, None).is_empty());
}

#[test]
fn tile_map_component_flushes_into_frame_blits() {
    let mut map = TileMap::new(4, 4);
    map.set(TileCoord { x: 2, y: 0 }, Tile { tile_type: TileType::Wall }).unwrap();
    let mut c = Component::TileMap(map);
    let fx = c.frame_update(handle(), 1);
    assert_eq!(fx.len(), 1);
    match fx[0] {
        FrameEffect::Blit { object, blit } => {
            assert_eq!(object, 1);
            assert_eq!(blit.x_px, 32);
            assert_eq!(blit.y_px, 0);
            assert_eq!(blit.tile_type, TileType::Wall);
        }
        _ => panic!("expected a sub-image copy"),
    }
    // The flush emptied the dirty set: the next frame owes nothing.
    assert!(c.frame_update(handle(), 1).is_empty());
}

#[test]
fn thrust_flame_shows_only_while_boosting() {
    let c = motion();
    assert_eq!(c.draw(false), None);
    let marker = c.draw(true).unwrap();
    assert_eq!(
        marker,
        ThrustMarker { ax: -8050, ay: 2000, bx: -8050, by: -2000 }
    );
    // Behaviours without a flame draw nothing either way.
    assert_eq!(Component::FaceMouse.draw(true), None);
    assert_eq!(Component::CameraFollow.draw(true), None);
}
