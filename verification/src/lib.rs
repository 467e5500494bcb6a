//! Decision logic for bringing up and tearing down a Vulkan context.
//!
//! Every native call (instance, device, surface, swapchain creation and the
//! matching destruction) is made by the caller. This crate decides what to ask
//! for and in which order, from plain values that the caller reads off the
//! driver, and each decision carries a machine-checked contract.

pub mod context;
pub mod debug;
pub mod native;
pub mod queues;
pub mod rendering;
pub mod surface;
