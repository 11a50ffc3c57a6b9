# PodBridge

Cross-platform AirPods manager for Windows and Linux: battery levels in the
system tray and noise-control commands over Apple's AAP protocol.

Layout:

- `src/` — the verified library (Verus).
  - `airpods/` — the data model, its user-visible text, the AAP packet codec
    (`aap.rs`) and the continuity model table (`models.rs`).
  - `bluetooth/` — the backend interface, the Linux backend, model detection
    from BLE advertisements (`scanner.rs`) and the decisions of the
    advertisement-watching backend, including the per-address battery cache
    (`discovery.rs`).
  - `ui/` — UI events and interface, tray tooltip text (`tray.rs`) and the
    placeholder icon's pixels (`icon.rs`).
  - `text.rs` — digits, substring search and the lower-case mapping.
  - `error.rs` — the error type and its messages.
- `app/` — the program: logging, the event loop, the tray (`tray-icon`) and
  the WinRT backend for Windows.
- `tests/` — tests of the library.
