//! Line-streaming bridge between a row-oriented software rasterizer and a
//! region-addressable display controller.
//!
//! The crate renders a frame one scanline at a time into a single reusable
//! row buffer and flushes each filled segment as one rectangular write
//! transaction, so no full frame buffer is ever materialized.

pub mod adapter;
pub mod clock;
pub mod display;
pub mod producer;
pub mod scheduler;
pub mod sim;
