//! Core simulation of a top-down arcade dodge-and-shoot game.
//!
//! A player ship moves inside a bounded arena, dodging falling rocks,
//! shooting them for points and collecting crates, while a small state
//! machine switches between the main menu and a running round. The host
//! runtime (window, rendering, audio, input polling) drives this library
//! once per frame with an elapsed-time value and the current logical
//! input state; the library owns every gameplay rule.
//!
//! Unit conventions, used consistently by every module:
//! - time is measured in whole milliseconds;
//! - positions and lengths are measured in thousandths of a world unit
//!   ("milli-units"), so the 900 x 900 arena spans 900_000 in each axis;
//! - speeds are measured in world units per second, which makes
//!   `speed * delta_ms` a displacement in milli-units;
//! - health and damage are measured in tenths of a health point, so a
//!   full health bar of 100 points is stored as 1000.

pub mod arena;
pub mod assets;
pub mod explosion;
pub mod gun;
pub mod player;
pub mod rng;
pub mod rock;
pub mod score;
pub mod space_crates;
pub mod star;
pub mod state;
pub mod timer;
pub mod world;
