//! Engine-side decision logic of a small Vulkan space game: logging filters,
//! device and queue selection, buffer and swapchain bookkeeping, mesh index
//! assembly, frame pacing, and the input and game-state machines of the testbed.

pub mod logger;
pub mod utils;
pub mod game;
pub mod resources;
pub mod vulkan;
pub mod window_renderer;
