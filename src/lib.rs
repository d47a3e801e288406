//! A single-hole golf simulation: terrain, equipment, shot planning,
//! ball flight and roll, and the turn rules, all in fixed-point units.
//!
//! Units used throughout:
//! - lengths in milli-tiles (1000 = one world tile; a tile is 5 yards),
//! - times in microseconds,
//! - velocities in milli-tiles per second,
//! - angles in micro-radians,
//! - multipliers in percent.

pub mod catalog;
pub mod game;
pub mod physics;
pub mod planner;
pub mod terrain;
pub mod trail;

pub use catalog::{ClubSpec, ShotType};
pub use game::{wrap_angle_rad, AirState, Course, Game};
pub use physics::Vec2;
pub use terrain::{terrain_char, terrain_surface, Surface};
