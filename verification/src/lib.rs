//! Host-side rules of a small GPU compute engine.
//!
//! The engine moves arrays between host and device memory and dispatches
//! data-parallel kernels over them. Everything the host decides before it
//! talks to a device lives here and is verified: how device objects are
//! sized, which work shapes may be dispatched, in which order kernel
//! arguments are bound, how a result is read back, and how filter kernels
//! are laid out. Talking to the device itself is left to the caller.

pub mod error;
pub mod filter;
pub mod kernel;
pub mod memory;
pub mod outside;
pub mod raster;
pub mod readback;
pub mod shape;
