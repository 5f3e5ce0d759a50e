//! Deterministic per-tick movement and collision simulation for a
//! player-controlled actor in a tile-based 2D world.
//!
//! All quantities are fixed-point integers: one world unit (the edge of a
//! tile) is [`math::SCALE`] units, and every constant of the simulation is an
//! exact multiple of one unit. Ticks are therefore bit-for-bit reproducible
//! and every arithmetic step is proved free of overflow.
//!
//! The state of the actor is described twice. [`model::PlayerModel`] is the
//! state as plain numbers, and [`model::PlayerModel::tick`] says what one
//! tick makes of it, step by step. [`player::Player`] is the state in
//! machine integers; every one of its methods is proved to do to the model
//! what its contract says. What holds of the simulation as a whole is stated
//! and proved in [`laws`], for the stepped move in [`motion`], and for the
//! round trip of a jump in [`landing`].
//!
//! - [`math`]: fixed-point numbers, vectors, boxes, directions
//! - [`input`]: the snapshot of the buttons
//! - [`tilemap`], [`level`]: tiles, maps and their file format
//! - [`collision`]: what a box touches on a map
//! - [`motion`]: the stepped move
//! - [`forces`]: the constants and the decaying forces
//! - [`ability`], [`dash`], [`wall_jump`]: the abilities and their state
//! - [`model`], [`player`]: the actor and its tick
//! - [`game`]: the tick of the whole game and the pacing of frames
//! - [`world`]: the two worlds

pub mod ability;
pub mod collision;
pub mod dash;
pub mod forces;
pub mod game;
pub mod input;
pub mod landing;
pub mod laws;
pub mod level;
pub mod math;
pub mod model;
pub mod motion;
pub mod player;
pub mod tilemap;
pub mod wall_jump;
pub mod world;
