# sh0k0h3x

A hex viewer's file inspection core, verified with Verus.

- `src/checker/filetype.rs` — PE header parsing (DOS magic, `e_lfanew`,
  signature, COFF File Header, Optional Header with its Data Directories,
  Section Table). Each parser's result is stated exactly by a spec function
  over the input bytes, errors included.
- `src/checker/error.rs` — the parse errors and their messages.
- `src/checker/laws.rs` — properties of the parser over all inputs.
- `src/checker/checker.rs` — the placeholder format detector.
- `src/file/load.rs` — the record of a loaded file.
- `src/imgui/init.rs` — the decision of the SDL event filter.
- `app/` — the SDL2/imgui window, the render loop and file reading.
