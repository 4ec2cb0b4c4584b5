//! Decision core of an autosplitter for Super Meat Boy.
//!
//! The library models the observed game values, the per-build memory layouts,
//! and the rules that turn value transitions into timer commands. All process
//! and timer I/O lives outside the library; the functions here are pure and
//! carry verified contracts.

pub mod engine;
pub mod game;
pub mod layout;
pub mod resolve;
pub mod settings;
pub mod snapshot;
pub mod tracker;
