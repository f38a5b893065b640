# inox2d-wgpu

A wgpu renderer for Inochi2D puppets whose core is verified with Verus.

- `src/` is the verified library: recording of a puppet's draw stream
  (`recorder`), the vertex/index layout of a puppet (`buffers`, `vertex`),
  the dynamic uniform buffer layout (`uniforms`), the planning of render
  passes from the recorded commands (`render`), the blend and stencil
  configuration of the pipelines (`pipeline`), which pipelines exist and
  where each is kept (`cache`) and surface/viewport decisions (`surface`).
- `app/` holds the GPU side: it owns the wgpu device, buffers, textures and
  pipelines, implements the puppet renderer trait, and executes what the
  library decides. `app/shaders.rs` holds the WGSL sources.
- `tests/` exercises the library on concrete values.
