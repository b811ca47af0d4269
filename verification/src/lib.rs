//! A small 2D arcade game core: a player-controlled ship against stationary
//! turrets that rotate and fire radial volleys of projectiles.
//!
//! The whole simulation (geometry, actor lifecycle, collision resolution and
//! the per-tick world step) is verified.  All scalars are 64-bit fixed-point
//! numbers; trigonometry is delegated to the cordic crate behind trusted
//! wrappers.  Presentation (windowing, rendering, raw input) is outside this
//! crate: the library consumes semantic key events and a per-tick time step,
//! and exposes the state needed to draw.

pub mod actor;
pub mod fx;
pub mod world;
pub mod geometry;
pub mod player;
pub mod shot;
pub mod turret;

pub use fx::SCALE;
pub use fx::HALF_PI;
pub use fx::TICK_DT;
