//! Per-element arithmetic over equal-length `u32` buffers: an expression such as
//! `b0 += b1 * b2 + 4` becomes compute-kernel source, and the decisions around
//! running that kernel on a device are a state machine over plain values.

pub mod error;
pub mod expression;
pub mod kernel;
pub mod names;
pub mod plan;
pub mod rewrite;
pub mod session;
pub mod source;
pub mod words;
