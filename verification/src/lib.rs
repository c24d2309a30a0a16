//! Core state machine for an interactive terminal menu: cursor clamping,
//! screen transitions, and selection bookkeeping. Terminal rendering and
//! configuration loading are left to the host program.

pub mod app;
pub mod catalog;
pub mod cursor;
pub mod dispatch;
pub mod laws;
pub mod screen;
