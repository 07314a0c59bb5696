//! Vulkan-side decisions: device and queue selection, buffer sizing, instance
//! version and swapchain bookkeeping.

pub mod queue_family;
pub mod device;
pub mod instance;
pub mod buffer;
pub mod swapchain;
pub mod image;
