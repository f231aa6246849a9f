# bevy_gpu_compute

A Bevy plugin for running compute shaders, split into a verified core and a thin Bevy layer.

- `src/` (verified with Verus): the task model. `iteration` holds the iteration space and the
  workgroup sizes and counts derived from it; `lengths` a table of array lengths by shader type
  name; `configuration`, `runtime` and `data` the parts of a task; `task` creating, mutating
  and planning pipelines for a task; `fallback_camera`, `task_deleter` and `plugin` the
  decisions behind the Bevy systems.
- `app/`: the Bevy and wgpu side: components, systems, shader and pipeline creation, reading
  results back from the GPU, and conversions from the shader-module crate's types.
- `tests/`: tests of the library on concrete values.
