//! Core logic for managing the refresh rates of desktop monitors.
//!
//! The library models the operating system's display registry as plain data
//! (device records, display modes, status codes) and verifies the logic that
//! turns those into monitor snapshots and mode-change requests: which devices
//! are listed, which refresh rates count as available, when a mutation request
//! is issued and what it must preserve.  The process-level callers (command
//! line and graphical front ends) gather the raw data from the operating
//! system and perform the actual calls.

pub mod batch;
pub mod gui;
pub mod monitor;
pub mod wide;
