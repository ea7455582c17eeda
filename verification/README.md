# revoxelation

The CPU side of a voxel renderer, verified with Verus: chunk storage and
greedy meshing, vertex packing, meshlet assembly, the chunk and meshlet
pool allocators, frame and lifecycle planning, world-sync and render
diagnostics, the chunk update queue, the window event loop's decisions
(input routing, idle redraw pacing, resize and frame counting), and the
tables the GPU layouts are built from.

- `src/` is the verified library. Each public function states what it
  returns or changes in `requires`/`ensures`; the `law_*` proof functions
  state properties that span several calls (a removal undoes an upload,
  resident meshlet ranges never overlap, the dense draw list covers every
  resident chunk once, and so on).
- `tests/` exercises the library on concrete values.
- `app/` is a small command-line driver: it loads the runtime configuration,
  meshes a demo chunk, clusters it into meshlets with meshoptimizer, runs it
  through both pools and builds light-sampler tables. Floating-point work
  (meshlet bounds, LOD simplification, camera and lighting math) lives
  there.
