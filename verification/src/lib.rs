//! Host-side planning for a one-shot, element-wise GPU compute job.
//!
//! A job uploads a vector of 32-bit values, runs one kernel invocation per
//! element, and reads back a vector of the same length. This crate holds the
//! parts of that job that are decided on the host: the dispatch grid and the
//! buffer sizes, the byte image of the vectors, the kernel text with its
//! binding slots, and the order of the steps of a run.
//!
//! Elements are carried as `u32` bit patterns; turning them into floating-point
//! values, and talking to the device, is left to the caller.

pub mod codec;
pub mod kernel;
pub mod plan;
pub mod report;
pub mod run;
