# chairgap

The platform-independent core of a small desktop toolkit that hosts web
content in native windows, written in Verus.

`src/` is the verified library:

- `window` — a window's readable state (visibility, flags, frame, size
  limits, title) together with the queue of native calls its setters issue;
  the auto-hide window wrapper with its event callback; focus tracking.
- `native` — the arguments the native window takes for frame changes, title
  styles and visual-effect (vibrancy) views.
- `menu` — menu templates, item lookup by index path, and enabling or
  checking items with the errors for missing or unsuitable items.
- `webview` — resolution of `deskgap://local-file/...` URLs to a path below
  a root directory (percent-decoding through the `percent-encoding` crate),
  and the web view's own configuration.
- `fn_utils` — replaceable callbacks and callbacks whose context arrives
  later.
- `app` — the application trait, the launch/reopen/terminate lifecycle, and
  the main-loop quit switch.
- `cef` — UTF-16 strings for the Chromium engine (through `widestring`).
- `geo`, `common` — plain geometry and engine interface types.

`app/` is ordinary Rust: serde copies of the plain types, the engine entry
point, reading local files from disk, test helpers, and the AppKit backend
that applies the library's window, menu and web-view decisions to native
objects.

`tests/` exercises the library on concrete values.
