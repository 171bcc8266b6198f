# flutter_wgpu_texture

The core of a desktop Flutter texture renderer: a headless Bevy/wgpu renderer
draws into an offscreen image that is copied into a texture Flutter composites
(a DMA-BUF on Linux). This crate holds the renderer's bookkeeping and rules,
verified with Verus; `app/` holds the host around it (the Dart and C entry
points, the render thread, the Bevy world and the Vulkan calls).

Layout of `src/`:

- `engine` — the renderer registry: handles, per-renderer state, the commands
  each request sends to the render thread and how their replies are read.
- `api` — what the Dart and C entry points answer (status bytes, the exported
  DMA-BUF records with the modifier split in halves).
- `dmabuf` — the DMA-BUF export decisions: memory type, DRM modifiers and
  their order, the device extensions the path needs.
- `viewports` — the render thread's table of offscreen viewports.
- `id_map` — the editor-id ↔ entity map and the steps of a scene sync.
- `modes`, `gizmo`, `kinds`, `reflect_info` — editor modes (gizmo, view,
  play), gizmo handle state, entity and light kinds, the reflected type
  listing.
- `scene_registry`, `scene_params`, `geometry` — named scene factories, the
  built-in scenes' runtime parameters, the cube's index list.
- `text` — small string helpers the rules above use.

Values the renderer only stores and passes on as `f32` (colours, pointer
positions, camera deltas) are carried as their bit patterns.
