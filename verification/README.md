# deepseek_harness

The logic of a Linux desktop shell that opens a configured web page in a native
window (Tauri), written in Verus and verified.

`src/` is the verified library:

- `text` — characters, trimming (Unicode white space), ASCII lower case, searching.
- `weburl` — parsed URLs (`url` crate) as plain values.
- `config` — the settings, the settings form, address normalization, window titles.
- `desktop` — data-directory paths, the desktop entry, `Exec` escaping.
- `icons` — collecting icon links from a page.
- `probe` — the favicon probe, as a state machine driven from outside.
- `encoding` — base64 (`base64` crate), data URLs, uploaded pictures.
- `sources` — where the icon comes from.
- `commands` — the settings page's answers and the save, as a state machine.
- `window` — window style and the opacity scripts.
- `launch` — start-up decisions, restart command, tray decisions.

`app/` holds the Tauri program around it: windows, tray, files, downloads, picture
conversion, and the loops that run the two state machines. `tests/` runs the
library with the real outside crates.
