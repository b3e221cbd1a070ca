//! Per-pixel rendering core for an FPGA-driven LED matrix: the serpentine
//! framebuffer layout, the typed variable store, the render-block
//! configuration language and its builder, the reconfiguration channel and
//! the FIFO-gated flush protocol.

pub mod geometry;
pub mod number;
pub mod color;
pub mod document;
pub mod blocks;
pub mod store;
pub mod vars;
pub mod builder;
pub mod channel;
pub mod hwsync;
pub mod frame;
pub mod args;
pub mod scan;
