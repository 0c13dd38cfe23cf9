//! Deterministic simulation and lockstep synchronization core of a
//! two-player Pong game.
//!
//! All simulation arithmetic is 16.16 fixed point on `i32`, so that every
//! machine computes bit-identical results. Each executable function carries
//! a contract over the mathematical model defined beside it.

pub mod game;
pub mod lockstep;
pub mod physics;
pub mod serialization;
pub mod transport;
pub mod types;
pub mod wire_protocol;

pub use game::Game;
pub use types::fx;
pub use types::{
    Ball, Config, Event, Fx, Input, InputPair, Paddle, ScreenRect, Side, Snapshot, Status, Tick,
    Vec2, View, FX_ONE,
};
