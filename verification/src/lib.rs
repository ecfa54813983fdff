//! Verified core of a full-screen terminal system monitor.
//!
//! A background sampler converts raw metric readings into an immutable
//! snapshot of the host's state, publishes it into a single shared store,
//! and a renderer turns the latest snapshot plus the current terminal
//! dimensions into a list of drawing commands.  Everything that decides or
//! computes lives here and is verified; the terminal I/O, the metric
//! sources, and the threads that tie them together live outside and speak
//! to this crate through plain values.

pub mod bar;
pub mod input;
pub mod sampler;
pub mod snapshot;
pub mod store;
pub mod textfit;
pub mod ui;
pub mod utils;
