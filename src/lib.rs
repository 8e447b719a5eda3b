//! Core of a driver-assistance plugin for a train simulator: fail-safe
//! control-command types, beacon tags, a track-distance quantity with an
//! interval algebra over it, a change-tracking value cell, and the session
//! state behind the host-facing entry points.

pub mod beacon;
pub mod control_command;
pub mod observable;
pub mod quantity;
pub mod section;
pub mod session;
