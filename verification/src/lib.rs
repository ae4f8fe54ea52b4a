//! Lifecycle coordination for a background service that forwards one global
//! keyboard shortcut and answers a small local control protocol.
//!
//! Each module holds the decisions of one component as verified functions over
//! plain values; the blocking and asynchronous plumbing that performs the
//! actions lives with the caller.

pub mod activity;
pub mod control;
pub mod hotkey;
pub mod idle;
pub mod pattern;
pub mod service;
pub mod startup;
pub mod timeline;
