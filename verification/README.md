# viewarr

An array/image viewer for the browser (Rust, WebAssembly, egui), split into a
verified library and the shell around it.

- `src/` — the verified library (Verus):
  - `colormap` — colormap names, parsing (case- and whitespace-insensitive,
    with `grayscale`/`greyscale` aliases) and the standard/diverging split;
  - `stretch` — stretch type and mode, symmetric mode, per-mode colormap
    choice, reversal, colorbar lock and texture staleness;
  - `slices` — cube slice navigation: scrubbing with one request in flight,
    timed playback with prefetch, looping;
  - `image` — dtype names, buffer size check, row-major pixel lookup;
  - `markers` — markers to and from the flat `[x0, y0, x1, y1, ...]` form;
  - `input` — what a modifier+click asks for.
- `tests/` — tests of the library.
- `app/` — the egui widget, pan/zoom/rotation geometry, rendering and the
  WebAssembly handle: floating-point and I/O code around the library.
- `extras/gen_colormap_luts.py` — generates `app/colormap_luts.rs`, the
  colormap lookup tables, from matplotlib.
