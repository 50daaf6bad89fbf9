# compression-core

The verified core of a desktop PDF compressor that writes a smaller copy of
a PDF beside the original.

- `src/` — the library, verified with Verus: input analysis (`analyze`),
  output naming (`naming`, over `std::path` in `paths`), the course of a
  compression as a step function (`compress`), engine diagnostics
  (`engine`), the error taxonomy (`errors`), the desktop application's
  settings and recent jobs (`state`), decimal rendering and text search
  (`text`) and the clock (`clock`).
- `app/` — the command-line program and the desktop commands: file-system
  work, the Ghostscript process, JSON and the state file.
- `tests/` — tests of the library.
