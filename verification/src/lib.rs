//! Core engine of a terminal dashboard that tails multiple growing text
//! files: bounded FIFO line buffers with a selection cursor, focus
//! navigation over a fixed ordered list of sources, dashboard layout
//! state, and the event dispatcher that the main loop drives.
//!
//! File watching, terminal rendering and command-line parsing are left to
//! the surrounding program; this crate holds the state machine they feed.

pub mod app;
pub mod buffer;
pub mod dash;
pub mod events;
pub mod layout;
pub mod monitor;
pub mod opt;
