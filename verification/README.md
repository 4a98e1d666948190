# glance

The logic of Glance, a desktop word-selection translator, as a verified Verus library.
The library decides what the application does; the application shell in `app/` performs
the I/O (Tauri windows, tray, shortcuts, the Windows mouse hook, HTTP and WebSocket
traffic, files) and hands the library plain values.

- `src/doubao.rs`, `src/doubao_stream.rs`: the Doubao translation request body, the
  reading of the server-sent event stream (lines, events, errors, the translation).
- `src/tts.rs`: the Doubao speech session: address, handshake, audio collection.
- `src/mimo_tts.rs`: the MiMo speech request and the reading of its reply.
- `src/browser.rs`: finding the browser, polling its DevTools port and the cookies, reading
  the page list and the cookies it answers.
- `src/config.rs`, `src/translate.rs`: settings and translation types, defaults, messages.
- `src/selection.rs`, `src/mouse_hook.rs`, `src/shortcut.rs`, `src/tray.rs`: the
  decisions of the desktop triggers (debouncing, popup placement, hook state).
- `src/json.rs`, `src/text.rs`: reading JSON through `serde_json`, and the text
  operations the rest is built from, each with its specification.
