# audio_controller

Per-application audio session control, with the decision logic verified by Verus.

- `src/lib.rs` — the session model (volumes as whole percentages) and `ControllerError`.
- `src/text.rs` — character-level text handling used by the PulseAudio reader:
  trimming, line splitting, prefix tests, decimal parsing and formatting.
- `src/linux.rs` — the reader of `pactl list sink-inputs`, the table of sessions,
  and the `pactl` commands that change a session.
- `src/windows/` — the Windows back end: error classification and messages,
  the enumerator's table and filter, the controller's checks, channel volume plans.
- `src/android.rs` — the Android back end, which is not ready yet.
- `src/tui.rs` — the key handling and outcome handling of the terminal browser.
- `app/` — the terminal program: the terminal, drawing, process spawning, and the
  conversions between fractional and percentage volumes.
