# space_engine

The decision logic of a small Vulkan space game, verified with Verus.

`src/` is the verified library:

- `logger` — log-level filtering and the exact lines printed for messages and lists.
- `utils` — integer points and sizes, and the size part of a UI object's hover change.
- `vulkan::queue_family`, `vulkan::device` — physical-device and queue-family selection,
  and the distinct queue families to create queues for.
- `vulkan::instance` — windowing-system names and the instance API version.
- `vulkan::buffer` — buffer sizing, the keep-or-reallocate decision and the staging layout of meshes.
- `vulkan::swapchain`, `window_renderer` — swapchain extent and image count, the dirty-flag
  bookkeeping, the per-frame plan and the frames-in-flight counter.
- `vulkan::image` — the aspect a layout transition covers.
- `resources` — assembling a mesh's index buffer and surfaces from its primitives.
- `game::input`, `game::state` — held movement keys, key and mouse commands, and the
  menu/world state machine with its hover bookkeeping.

`app/` is the program around it: the window and event loop (winit), every Vulkan call
(ash, ash-window, gpu-allocator), glTF loading, and all floating-point work (camera,
physics, matrices, colours).
