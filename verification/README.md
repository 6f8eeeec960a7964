# tv_tauri

The decision logic of the Airwave TV desktop client, verified with Verus, and the Tauri shell
around it.

- `src/` — the verified library:
  - `mpv` — the libmpv call protocol: C-string checks, status codes to results, property reads.
  - `commands` — option sets and command lines sent to mpv.
  - `event_loop` — routing of mpv events, UI events, and the wake-lock rule.
  - `probe` — the decode probe as a state machine (`probe_blocking` is its step).
  - `health` — server discovery by health check (JSON read with `serde_json`).
  - `subnets` — the private `/24` prefixes swept during onboarding.
  - `surface` — the video surface size.
  - `text` — decimal rendering of integers.
- `app/` — the Tauri commands, the libmpv FFI handle, the event-loop thread, the probe driver,
  network calls and the Linux Wayland/EGL renderer.
- `tests/` — tests of the library on concrete values.
