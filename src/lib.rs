//! Host-side runtime for launching compute kernels on an accelerator device.
//!
//! The native driver is reached by the caller; this library decides what to
//! ask of it, in which order, and what each answer means.
pub mod error;
pub mod launch;
pub mod runtime;
pub mod setup;
pub mod transfer;
