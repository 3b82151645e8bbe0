//! Double-buffered streaming of raw video frames between memory-mapped
//! capture/output devices and an externally owned image store.
//!
//! The crate has three parts: a pure pixel-format converter between packed
//! 4:2:2 luma-chroma macropixels and four-channel color buffers ([`pixel`]),
//! the device abstraction that owns one stream's metadata and the working
//! half of its double buffer ([`device`]), and the spawn/reap scheduling
//! protocol that guarantees at most one conversion unit in flight per device
//! ([`sched`]).

pub mod device;
pub mod pixel;
pub mod sched;
