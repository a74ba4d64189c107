//! Simulation core of a terminal side-scrolling runner game: a
//! player-controlled rabbit jumps over scrolling cacti until a collision
//! ends the round.
//!
//! The crate holds the verified game logic: vertical physics for the
//! rabbit, the cyclic scrolling ground, the obstacle lifecycle
//! (spawn, advance, prune), axis-aligned collision detection, and the
//! per-tick state machine that ties them together.  Terminal rendering
//! and raw input capture live outside, in the binary that drives the
//! loop; they exchange plain values with this crate.

pub mod constants;
pub mod rect;
pub mod ground;
pub mod rabbit;
pub mod cactus;
pub mod app;
