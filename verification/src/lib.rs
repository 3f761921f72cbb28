//! A downhill-skiing arcade simulation: a player glides down a procedurally
//! populated slope, steering between discrete heading states, reacting to
//! collisions with terrain obstacles, and performing timed tricks.
//!
//! The crate covers the two core subsystems: the player state machine (heading,
//! falls, jumps, sitting recovery, tricks and flips, all frame-counted) and the
//! world/terrain model (object placement, procedural course generation,
//! scrolling, eviction, collision queries). Rendering, window management and
//! input decoding are external collaborators and are not part of this crate.
//!
//! All world geometry is carried in fixed-point integers: a coordinate or a
//! vector component is measured in milliunits (one thousandth of a world
//! unit), and an angle is a whole number of 15-degree steps. This keeps every
//! quantity exact and every operation checkable.

pub mod map;
pub mod player;
pub mod sim;
pub mod util;

mod rng;
