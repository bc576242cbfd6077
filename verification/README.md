# pebble

The logic of a small wgpu/winit graphics engine, written in Verus and
proved against its contracts.

- `src/` is the verified library. Each module states what its functions
  return over spec functions and views: bind group layouts and duplicate
  bindings, pipeline descriptors checked against device limits, buffer and
  dynamic-buffer sizing, texture, texture-array and cubemap upload plans,
  mip chains, sampler descriptors, the surface configuration and what a
  frame does after an acquire, the joint hierarchy of a skeleton (with a
  parent-first order that exists exactly when the links have no cycle),
  the rules a glTF model must meet to be loaded, batched skinning, touch
  tracking and frame-time statistics. Laws that relate several functions
  are public proof functions (`lemma_*`).
- `app/` is ordinary Rust around the library: the wgpu device, surface
  and frames, GPU resources built from the library's checked
  descriptors, the winit window and input, glTF loading with the `gltf`
  crate, the floating-point animation math, batched skinning buffers and
  the egui profiler overlay.
- `tests/` exercise the library on concrete values.
