//! Verified core of a small Vulkan renderer.
//!
//! The library holds the decision and bookkeeping logic of renderer setup:
//! queue-family selection for device creation, framebuffer bookkeeping, and
//! mesh assembly from decoded model data. Handles of driver objects are
//! carried as plain `u64` values; the unverified shell around the library
//! performs the actual driver calls and hands the resulting handles in.

pub mod device;
pub mod framebuffer;
pub mod mesh;
pub mod queue_family;
