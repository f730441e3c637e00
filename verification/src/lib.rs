//! Terminal-state adapter for the Shitty virtual terminal.
//!
//! The engine itself lives behind a C ABI. This crate holds everything the
//! adapter decides on its own: how raw snapshots of the engine are decoded
//! into terminal state, how pointer input is encoded for the engine's mouse
//! encoder, and which wheel routes are live.

pub mod abi;
pub mod terminal;
pub mod engine;
pub mod text;
pub mod input;
