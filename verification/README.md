# ym38x6

Core logic of the 38x6, a fictional 4-operator FM sound chip, and of its
waveform-memory voice, written in Verus and proved against its contracts.

## Layout

- `src/` — the verified library:
  - `params`, `algorithm`, `effects`: patch parameters, the routing table of
    the eight algorithms, the master-effect type numbers;
  - `wave`: the 1024-entry log wave table, its entry codec, the square
    waves, the 32-sample resampler and the 256 wave slots;
  - `preset`, `load_order`: built-in patches, preset files, the (bank,
    program) store and which files of a preset directory load in what order;
  - `opq`, `cli`: the OPQ voice converter and its command line;
  - `midi`, `controller`: RPN/NRPN selection, Data Entry, aftertouch, note
    bookkeeping and the host-parameter rules of the two plugin front ends,
    as state machines that answer each event with the next state and the
    action the audio loop must take;
  - `mapping`, `lfo`, `settings`: integer level mapping, the sample & hold
    generator step, application settings.
- `tests/` — tests of the library on concrete values.
- `app/` — the parts that are not verified: file and settings I/O, JSON
  (serde copies of the patch types), the converter's `main`, and the
  floating-point signal processing (wave generators, LFOs, filter, effects).

## Not included

- The FM and waveform-memory engines (voices, envelopes, rendering) and the
  loops that drive them: the plugin shells and the desktop composition app.
  The operator module the FM engine is built on is not part of this source
  tree, and the plugin frameworks and audio/windowing crates those shells
  need are not used here. The controllers in `src/controller.rs` hold every
  decision those loops make.
