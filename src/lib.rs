//! Frame lifecycle and swapchain-resize coordination for a small real-time
//! renderer, written as verified state machines over plain values.
//!
//! The GPU work itself (recreating a swapchain, acquiring an image, submitting
//! and presenting) is performed by the caller; the library decides what to do
//! next from the outcome it is handed back.

pub mod device;
pub mod instance;
pub mod swapchains;
pub mod framebuffers;
pub mod dynamicstate;
pub mod commands;
pub mod model;
pub mod simple_display;
pub mod commandbuffers;
pub mod render;
pub mod guarantees;
