# chibi_engine

The logic of a small Vulkan engine, written in Verus with its behaviour
stated in `requires` / `ensures` contracts and proved.

## Layout

- `src/` — the verified library.
  - `id.rs` — generational ids: packing an index and a generation into one
    number, and the id table that hands ids out, recycles freed indices and
    detects stale handles.
  - `renderer/` — the renderer's tables and decisions: textures
    (`texture.rs`), meshes and the per-frame draw list (`mesh.rs`), per-frame
    GPU buffers (`buffer.rs`), materials and the opaque material's pipeline
    recipe (`material.rs`), the commands a frame records (`system.rs`), the
    render thread's pacing and answers (`thread.rs`).
    - `graphics/` — GPU, queue, format and extension choice and the swapchain
      configuration (`gpu_device.rs`), swapchain state (`gpu_swapchain.rs`),
      command buffers as the list of calls they record
      (`gpu_command_buffer.rs`), pipeline and descriptor builders, and the
      growable descriptor allocator (`gpu_descriptors.rs`).
  - `importer/` — OBJ and MTL reading as a line-by-line state machine
    (`obj.rs`), the byte-level text helpers it uses (`text.rs`), the
    vertex optimization stages that call meshoptimizer (`optimize.rs`), and
    texture decoding with the `image` crate (`texture.rs`).
  - `window/` — keys, buttons, events and GLFW code mapping.
  - `assets/`, `engine_core/`, `util/` — asset handles, the game description
    and frame-loop decision, NUL-terminated strings.
- `tests/` — tests of the library on concrete values.
- `app/` — the testbed program and what stays outside the library: vector
  and matrix math, the camera, float parsing and vertex layout of imported
  models, reading texture files, and the threads and channels of the frame loop.

Driver calls (Vulkan, GLFW) are not part of this crate: the library computes
what is handed to the driver and takes what it reports back as plain values.
