//! Core of a desktop installation wizard: a stage-progression state machine
//! with an accumulated installation context, per-stage controller logic, and
//! the construction of the plan handed to the external installation engine.
//!
//! The library is renderer-agnostic: every user interaction and every
//! asynchronous result enters as a plain value, and every decision (which
//! stage is active, which controls are offered, what the engine is asked to
//! do) is a verified function of the state.

pub mod context;
pub mod install;
pub mod select_game;
pub mod select_mods;
pub mod select_source;
pub mod urls;
pub mod view;
pub mod wizard;
