//! The Win32 side of the rosin GUI toolkit: window geometry, the thread
//! gate around a native view, the per-view graphics state, the launcher that
//! collects window descriptions, and the values that the native calls take.
//!
//! The native calls themselves stay with the caller; this crate decides what
//! they are asked to do and what their answers mean.

pub mod geometry;
pub mod launcher;
pub mod view;
pub mod raw_handle;
pub mod handle;
pub mod laws;
pub mod title;
pub mod create;
