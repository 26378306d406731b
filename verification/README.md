# danji

Control logic of a vacuum-tube amplifier simulator, verified with Verus.

- `src/` — the verified library: the control-socket line protocol
  (`protocol`), the parameters shared by the socket and the audio engine
  and the tube/model catalogues (`params`), the engine's request handling
  and device-name filters (`engine`), audio-device bookkeeping and
  four-character codes (`monitor`), node identifiers and tube instances
  (`node`), the error type (`error`), character-level text utilities
  (`text`) and cross-module properties (`laws`).
- `app/` — ordinary Rust around it: the floating-point circuit simulator
  (`sim`), the offline WAV processor (`cli`), the real-time daemon
  (`realtime`), the control GUI (`ctrl`) and a CoreAudio device check
  (`monitor_test`), selected by the first command-line argument.
- `tests/` — tests of the library on concrete values.
