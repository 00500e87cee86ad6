# asaogea

The decision-making core of a small Vulkan engine, written in Verus and proved against its
contracts.

- `src/` is the verified library:
  - `gfx/` — queue family selection, physical device checks, swapchain configuration,
    buffer and mesh bookkeeping, pipeline layout data, render pass attachments, image layout
    transitions, debug-name object types, UI draw lists and the per-frame swapchain render loop;
  - `assets/gltf.rs` — the buffers a glTF document declares, where each buffer's bytes come
    from (URIs with base64 payloads, the binary chunk), buffer checks and padding, primitive
    layout and image decoding;
  - `types/` — the resource pool with owners and reference-counted handles, the profiler and
    the frame timer;
  - `shaders.rs`, `ui.rs`, `input.rs`, `options.rs` — shader definitions and include lookup,
    UI windows and contexts, input state, engine options.
- `tests/` runs the library on concrete values.
- `app/` is the desktop program around it: the winit event loop, the Vulkan queries, file
  reading, shader compilation with DirectX Shader Compiler, the job system and the
  lock-based shared data.
