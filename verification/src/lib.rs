//! Decision logic of an automatic commit engine.
//!
//! The engine watches one repository: on each tick of a timer, or on request,
//! it looks for pending changes, summarises them, asks a remote text
//! generation service for a commit message, commits and publishes. This crate
//! holds every decision of that engine as verified functions on plain values.
//! Whoever drives it performs the effects (repository commands, the network
//! exchange, the timer, storage) and reports their results back.

pub mod config;
pub mod diff;
pub mod error;
pub mod message;
pub mod pipeline;
pub mod sanitize;
pub mod scheduler;
pub mod text;
pub mod validator;
