//! Runtime core of a small real-time application engine.
//!
//! The crate holds the decisions of the engine as verified functions over
//! plain values: the four-state encoding of buttons and keys, the input
//! snapshot that the event pump fills once per frame, the registry that
//! drives the lifecycle of application states, the pacing of the main loop
//! and the reading of the window configuration.

pub mod action;
pub mod config;
pub mod event;
pub mod input;
pub mod lifecycle;
pub mod logger;
pub mod schedule;
pub mod state;
pub mod window;
