# raxon

The verified core of a signal-driven native UI framework, written in Verus.
Every function under `src/` is verified by Verus against its
`requires`/`ensures` contract; where a function hands work to a host
driver or to a callback, its contract says what is handed over and what
holds whatever comes back. `app/` is the ordinary Rust that does what a
proof cannot reach (I/O, threads, closures kept in registries, serde
encodings).

## Layout

- `src/dom/` — the widget/mutation model sent to platform backends and the
  event model coming back.
- `src/android.rs` — translation of mutations into Android commands and
  their wire form, and the command outbox of the Android backend.
- `src/ios.rs` — the UIKit backend's bookkeeping: platform status decoding,
  per-view callback tables, text limits, UIKit codes, and the per-frame
  queue of platform results turned into events.
- `src/host.rs` — the host-session registry: opaque handles, request
  routing, the JSON bridge's protocol checks and error replies.
- `src/nav/` — URL/route parsing and matching, the typed navigation stack,
  and the string router (history, guards, modals, back handlers, listeners).
- `src/net.rs` — request builders, retry decisions, multipart framing, the
  query and image caches, and the server-sent-events line parser.
- `src/runtime.rs` — the per-frame request queue, device readings,
  locale handling, appearance, frame clock, debounce and throttle.
- `src/assoc.rs`, `src/text.rs`, `src/core_types.rs` — string maps, byte
  helpers, colors and geometry.
- `tests/` — behaviour tests run against the compiled library.
- `app/` — platform glue: HTTP and WebSocket clients, JSON encodings for the
  host bridges, and the closures behind callback handles.

Floating-point values (lengths, levels, seconds) are carried as their IEEE
bit patterns and never computed on inside the library.
