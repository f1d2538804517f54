//! A single-pass frame loop core: geometry buffers, a fixed pipeline state,
//! per-frame command encoding and the frame lifecycle state machine.

pub mod command;
pub mod config;
pub mod error;
pub mod game;
pub mod geometry;
pub mod pipeline;
pub mod scalar;
