# rust_pixel

The core of a glyph-based 2D game engine, written in Verus and verified.

- `src/` is the verified library:
  - `util::rand`: the reproducible two-LCG generator (exact sequence,
    shuffles that only rearrange) and a xoshiro256** generator.
  - `util::shape`: midpoint circles, Bresenham lines with their step
    symbols, and the choice of start point for `| - \ /` line drawing.
  - `util::objpool`: an object pool that reuses inactive objects.
  - `event`: the event centre (a callback sees an emitted event exactly
    once) and frame-counting timers that emit their event when they run out.
  - `init` and the crate root: the set-once configuration and asset caches,
    and the splitting of concatenated layer data.
  - `render::adapter::{gl, wgpu}::shader_source`: transition shaders.
- `tests/` runs the library on concrete values.
- `app/` holds what the library leaves out: process-wide cells, the clock,
  log files, floating-point effects (lightning, Bezier curves, particles,
  mip levels, colours, transforms) and WGPU resource creation.
