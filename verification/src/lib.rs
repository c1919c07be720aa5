//! A minimal reaction-timing game, as a verified state machine.
//!
//! The library holds the game's whole logic: a bounded position generator
//! for the target, and a state machine that reacts to clicks, timer ticks
//! and restart requests. A thin front end owns the actual timer, audio and
//! rendering resources and drives this machine from its event loop.

pub mod game;
pub mod position;
pub mod text;
