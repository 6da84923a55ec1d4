# vkrender

The bookkeeping of a small Vulkan renderer, verified with Verus.

- `src/` is the verified library: the registries that place loaded meshes in shared
  vertex and index buffers (`common::mesh`), materials, textures and scene instances;
  scene path resolution; the loaders' extension dispatch, index offsetting and naming
  (`assets::loaders`, `loaders`); the asset manager that registers a model's materials
  under the ids its submeshes look them up by; and the render loop's decisions
  (`context`: physical device choice, draw call arguments, frame steps, window events).
  Floating-point values that pass through the library unchanged (vertex attributes,
  material factors, instance transforms) are held by their `f32` bit patterns.
- `app/` is the program around it: windowing (winit), Vulkan (vulkano), file reading
  (glTF, Wavefront OBJ, JSON and postcard scene files), and the floating-point camera and
  transform math (nalgebra). It loads precompiled SPIR-V shaders from `shaders/`.
- `tests/` exercises the library on concrete values.
