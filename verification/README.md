# terrain_gen

A procedural terrain generator drawn with wgpu: terrain heights come from
layered gradient noise (fractional Brownian motion) computed on the GPU by one
of several pipelines, and can be checked against a CPU computation of the
same noise.

- `src/` is the verified library: the SquirrelNoise5 lattice hash and the
  integer part of gradient noise (`noise`), the terrain grid and its triangle
  mesh (`mesh`), the pipeline decisions (`pipeline`), keyboard and mouse
  input (`controls`), and the timing histories and GPU-versus-CPU mismatch
  summary (`stats`). Each function carries its contract, and the properties
  that span functions are proof functions beside them.
- `app/` is the application around it: the window, the GPU resources and
  passes, the floating point noise interpolation and camera geometry, and the
  controls panel. The WGSL shaders are read at start-up from the directory
  named by `TERRAIN_SHADER_DIR` (default `src`).
