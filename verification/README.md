# jcode_kit

Verified building blocks of the jcode coding agent.

- `src/` is the library. Verus proves every function in it against its contract; the calls into
  outside crates and the standard library stand behind small items whose doc comments say what is
  taken on trust.
  - `warp_agent`, `payload`, `session`, `test_sink`: the Warp terminal integration, from the
    session's state to the escape sequences on the wire. `warp_laws` states what holds over whole
    runs.
  - `image_clamp`, `image_header`, `clamp_cache`, `codec`: clamping outbound images to the
    provider's pixel limits.
  - `pdf`: what becomes of a PDF parser's outcome.
  - `browser`: when to open the browser extension's installer.
  - `text`: white space, truncation, numbers and path names.
- `tests/` runs the library with the real outside crates.
- `app/` is ordinary Rust around it: environment, terminal, files and process-wide state.
