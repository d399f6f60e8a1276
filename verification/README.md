# ricture

A small screenshot tool for Wayland: capture the first output over
`wlr-screencopy`, drag a rectangle on a full-screen overlay, then copy the
selection to the clipboard or save it as a PNG. Copying runs the `wl-copy`
binary from `wl-clipboard`, which must be on `$PATH` at run time.

## Layout

- `src/` — the library, verified with Verus:
  - `convert` — shared-memory frames (ARGB8888/XRGB8888, any stride) to RGBA,
    and RGBA back to the B, G, R, A layout of an ARGB8888 buffer;
  - `image` — the `Screenshot` type and cropping;
  - `render` — copying the selected rectangle into the dimmed overlay;
  - `selection`, `overlay` — the drag state machine, key bindings, redraw and
    exit decisions of the overlay;
  - `registry`, `capture`, `clipboard` — which Wayland globals are bound, how
    screencopy frame events are answered, the `wl-copy` command, and an
    in-process clipboard owner over `wlr-data-control`;
  - `color`, `config` — configuration defaults, location and checks, and the
    `#rrggbb[aa]` colour format;
  - `export` — PNG encoding and decoding through the `png` crate;
  - `notify`, `cli` — notification requests, command line and file names.
- `app/` — the program: Wayland connections, shared memory, the overlay
  surface and its `tiny-skia` drawing, file and D-Bus I/O.
- `tests/` — tests of the library.

Keys on the overlay: `Esc` cancels; `Enter`, `Space` or `Ctrl+C` copy the
selection; `Ctrl+S` saves it to the configured directory.
