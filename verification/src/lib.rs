//! The simulation core of a real-time 2D arcade game: a fixed-timestep
//! scheduler decoupled from the render rate, an entity/component model
//! dispatched in three ordered phases, a physics world that owns every rigid
//! body and collider behind stable handles, and an incrementally re-rendered
//! tile map.
pub mod app;
pub mod component;
pub mod keybinds;
pub mod object;
pub mod physics;
pub mod tilemap;
