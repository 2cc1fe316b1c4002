# fluxel_host

Native-host primitives for Fluxel applications, verified with Verus.

The library (`src/`) holds the lifecycle decisions of native windows and of
the event-driven runtime, each with a contract:

- `window`: the event vocabulary, the validated `WindowConfig` (non-zero
  extent, NUL-free title) and its UTF-16 wide-string form, the Win32 window
  procedure's state machine (`win32`), the borrowed Android/iOS drawable
  (`adopted`), and the explicit unsupported-target contract (`unsupported`).
  `win32_laws` and `adopted_laws` prove what holds over any sequence of
  messages or callbacks: one terminal close event, restores only after
  minimization, revocation reported once, events handed out in order.
- `runtime`: the `winit`-backed `HostRuntime`, `HostContext`, `HostWindow`
  and the `Runner` that turns platform callbacks into the application's
  ordered callbacks, as recorded by the application's own `received` history,
  and returns whether the loop must stop; `lifecycle` holds the pure
  decisions and `laws` proves that the drawable intervals the application
  receives never overlap and that its first event announces its drawable.

`app/` is the platform glue that cannot be verified: Win32 FFI and the window
procedure, the Android/iOS pointer adoption, the `winit` application handler
and event loop (it builds the loop and asks it to stop when the runner says so), and the `Display`/`raw-window-handle` trait impls.
