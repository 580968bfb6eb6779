//! A parameter synchronization and control-addressing core.
//!
//! Independently-evolving copies of an entity's state are kept consistent
//! through small, typed update messages, while each entity's parameters are
//! exposed as uniformly addressable control points for external automation.

pub mod control;
pub mod entity;
pub mod misc;
pub mod rng;
pub mod schema;
pub mod stuff;
