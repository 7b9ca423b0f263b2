# audio_tester_rs

An audio tester (tone output, input level meters, tap-to-tone and round-trip
latency) whose decision logic is a library verified with Verus.

- `src/` — the verified library:
  - `ring_buffer` — bounded recording buffer addressed by absolute stream position;
  - `pulse` — the round-trip test pulse (as exact integer levels) and the lags
    searched by the correlation;
  - `tap_to_tone`, `round_trip` — measurement state machines and result classification;
  - `playback` — which frames of an audio callback carry the pulse or the beep;
  - `navigation` — screens and the single live test;
  - `tone`, `levels` — waveform selector, meter read sizes and peak hold.
- `app/` — the macroquad user interface, the audio backends and all floating-point
  signal processing (filters, onset detection, correlation scores, synthesis).
- `tests/` — tests of the library on concrete values.

`app/` also uses the `sasa` audio crate (backends over cpal, Oboe and OHOS
audio). `sasa` is not published on crates.io, so `Cargo.toml` cannot name it,
and `app/` builds only where that crate is supplied.
