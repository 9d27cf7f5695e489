# voxel_renderer

A small Vulkan voxel renderer whose decision-making core is verified with
Verus.

* `src/` — the verified library:
  * `mesh` — cube faces, translated cubes and whole-chunk meshes, with the
    block layout laws (`to_1d_array`, `generate_chunk_mesh`);
  * `memory` — choosing a device memory type;
  * `device` — instance extensions, physical device and queue families;
  * `swapchain` — swapchain settings and image bookkeeping;
  * `sync_objects` — semaphore and fence counts;
  * `renderer` — recording renderables and planning each frame;
  * `pipeline` — pipeline state, image views, buffer sizes, texture layout
    barriers, and the barriers, attachments and clear values of each frame;
  * `texture` — selecting and sorting texture files, decoding them and sizing
    their staging buffers;
  * `spirv` — SPIR-V words from file bytes;
  * `timing` — start-up step messages;
  * `input` — the main loop's reaction to events.
* `app/` — the program: window and input (SDL3), the Vulkan calls (ash),
  the floating-point camera and shader data (nalgebra-glm), file reading
  and logging.
* `tests/` — tests of the library on concrete values.
