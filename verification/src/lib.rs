//! Simulation core of a terminal breakout game.
//!
//! The library owns the game logic: 2-D integer vectors, the physics
//! entities (ball, paddle, bricks), collision detection and response,
//! the per-tick round simulation, and the scene state machine that
//! tracks lives and score. Rendering, input decoding and the runtime
//! that drives the ticks live outside the library and talk to it
//! through plain values.

pub mod app;
pub mod collision;
pub mod entity;
pub mod game;
pub mod scenes;
pub mod vector;
