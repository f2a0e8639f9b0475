use arcade_core::app::App;
use arcade_core::component::{
    Component, FaceMouseInput, FrameEffect, MilliVec2, TickEffect, TickInput,
};
use arcade_core::keybinds::{KeyAction, PressedState};
use arcade_core::tilemap::{Tile, TileCoord, TileMap, TileType};
use rapier2d::dynamics::RigidBodyBuilder;
use rapier2d::geometry::ColliderBuilder;

fn ship_components() -> Vec<Component> {
    vec![
        Component::FaceMouse,
        Component::Motion { power: 100_000, brake: 975, emitter: MilliVec2 { x: -8000, y: 0 } },
        Component::CameraFollow,
    ]
}

fn add_ship(sim: &mut App) -> usize {
    sim.add_object(
        RigidBodyBuilder::dynamic().ccd_enabled(true).can_sleep(false).build(),
        ColliderBuilder::ball(0.5).build(),
        ship_components(),
    )
}

#[test]
fn a_fresh_simulation_is_running_and_empty() {
    let sim = App::new();
    assert!(!sim.paused);
    assert!(!sim.debug);
    assert_eq!(sim.fixed_tick_time, 0);
    assert!(sim.objects.is_empty());
    assert_eq!(sim.keybinds.get(KeyAction::Boost), PressedState::Off);
}

#[test]
fn registered_entities_resolve_through_the_simulation() {
    let mut sim = App::new();
    let idx = add_ship(&mut sim);
    assert_eq!(idx, 0);
    assert_eq!(sim.objects.len(), 1);
    assert!(sim.get_rigid_body(&sim.objects[idx]).is_some());
    assert!(sim.get_collider(&sim.objects[idx]).is_some());
}

#[test]
fn pause_toggles_on_the_just_pressed_edge_only() {
    let mut sim = App::new();
    sim.frame_tick(&vec![256]);
    assert!(sim.paused);
    // Holding the key keeps it pressed: no second toggle.
    sim.frame_tick(&vec![256]);
    assert!(sim.paused);
    sim.frame_tick(&vec![]);
    assert!(sim.paused);
    // A fresh press unpauses.
    sim.frame_tick(&vec![256]);
    assert!(!sim.paused);
}

#[test]
fn debug_overlay_toggles_once_bound() {
    let mut sim = App::new();
    sim.keybinds.add_key(KeyAction::Debug, 68);
    sim.frame_tick(&vec![68]);
    assert!(sim.debug);
    sim.frame_tick(&vec![68]);
    assert!(sim.debug);
}

#[test]
fn frame_phase_still_runs_while_paused() {
    // Pausing stops ticks, never the per-frame presentation phase: the camera
    // follower still retargets each frame.
    let mut sim = App::new();
    add_ship(&mut sim);
    sim.paused = true;
    let ticks = sim.check_fixed_tick(10 * 1_000_000);
    assert_eq!(ticks, 0);
    let body = sim.objects[0].rigid_body;
    let fx = sim.frame_tick(&vec![]);
    assert_eq!(fx, vec![FrameEffect::CameraTarget { body }]);
}

#[test]
fn tick_effects_follow_entity_and_component_order() {
    let mut sim = App::new();
    add_ship(&mut sim);
    let second = sim.add_object(
        RigidBodyBuilder::dynamic().build(),
        ColliderBuilder::ball(0.5).build(),
        vec![Component::Motion { power: 7, brake: 500, emitter: MilliVec2 { x: 0, y: 0 } }],
    );
    // Hold boost and slow; give the first entity a pointer reading.
    sim.keybinds.update(&vec![87]);
    sim.keybinds.add_key(KeyAction::Slow, 83);
    sim.keybinds.update(&vec![87, 83]);
    let ship_body = sim.objects[0].rigid_body;
    let other_body = sim.objects[second].rigid_body;
    let inputs = vec![
        TickInput { face: Some(FaceMouseInput { angle: 2000, angvel: 0, inertia: 3000 }) },
        TickInput { face: None },
    ];
    let fx = sim.fixed_tick(&inputs);
    assert_eq!(
        fx,
        vec![
            // Ship: the pointer steering, then its motion thrust and brake.
            TickEffect::Torque { body: ship_body, torque: 2000 },
            TickEffect::Thrust { body: ship_body, power: 100_000 },
            TickEffect::Brake { body: ship_body, factor: 975 },
            // Second entity, in list order after the ship.
            TickEffect::Thrust { body: other_body, power: 7 },
            TickEffect::Brake { body: other_body, factor: 500 },
        ]
    );
}

#[test]
fn released_actions_produce_no_tick_effects() {
    let mut sim = App::new();
    add_ship(&mut sim);
    let inputs = vec![TickInput { face: None }];
    let fx = sim.fixed_tick(&inputs);
    assert!(fx.is_empty());
}

#[test]
fn a_level_entity_flushes_its_map_each_frame() {
    let mut sim = App::new();
    let mut map = TileMap::new(16, 16);
    map.set(TileCoord { x: 1, y: 1 }, Tile { tile_type: TileType::Wall }).unwrap();
    sim.add_object(
        RigidBodyBuilder::fixed().build(),
        ColliderBuilder::cuboid(8.0, 8.0).build(),
        vec![Component::TileMap(map)],
    );
    let fx = sim.frame_tick(&vec![]);
    assert_eq!(fx.len(), 1);
    match fx[0] {
        FrameEffect::Blit { object, blit } => {
            assert_eq!(object, 0);
            assert_eq!((blit.x_px, blit.y_px), (16, 16));
        }
        _ => panic!("expected a sub-image copy"),
    }
    // The dirty cell was consumed: the next frame owes no copy.
    let fx = sim.frame_tick(&vec![]);
    assert!(fx.is_empty());
    // Later writes through the entity's own component are picked up again.
    match &mut sim.objects[0].components[0] {
        Component::TileMap(m) => {
            m.set(TileCoord { x: 0, y: 3 }, Tile { tile_type: TileType::Wall }).unwrap();
        }
        _ => panic!("expected the level map"),
    }
    let fx = sim.frame_tick(&vec![]);
    assert_eq!(fx.len(), 1);
}

#[test]
fn ticking_and_stepping_keep_entity_handles_valid() {
    let mut sim = App::new();
    add_ship(&mut sim);
    for _ in 0..3 {
        let ticks = sim.check_fixed_tick(1_000_000);
        assert_eq!(ticks, 1);
        for _ in 0..ticks {
            let inputs = vec![TickInput { face: None }];
            let _fx = sim.fixed_tick(&inputs);
            sim.step_physics();
        }
        sim.frame_tick(&vec![]);
    }
    assert!(sim.get_rigid_body(&sim.objects[0]).is_some());
}
