//! Core engine of a side-by-side video comparison viewer.
//!
//! Several video streams are decoded independently, each paced to its own
//! nominal frame rate, and composited into one window by a single render
//! loop. This crate holds the verified core: frame pacing, texture-resource
//! replacement, instance layout, and the per-tick compositor state machine.
//! Window, GPU and codec plumbing live outside the library and feed it plain
//! values (timestamps in milliseconds, pixel buffers, window dimensions).

pub mod engine;
pub mod frame;
pub mod layout;
pub mod pacing;
