# meetily

The rules of a meeting recorder's audio and diarization backend, written in
Verus with their contracts proved. The library describes the recorder as it
is built for Linux and the other non-macOS systems: the macOS capture
backends are not part of it.

- `src/devices`: reading `pactl` output into a device table, friendly device
  names (PulseAudio descriptions, ALSA / USB / monitor name patterns), and the
  Linux device list with each friendly name listed once.
- `src/diarization`: model routing under a privacy mode (with its cache),
  error recovery (retries with exponential backoff, fallback modes, user
  messages), the identification prompt and transcript, speaker label mapping,
  voice profile consent and SHA-256 fingerprints, and the command helpers.
- `src/recording`: recording preferences (defaults, integrity check, a save
  that checks what was written and rolls back), the start sequence with
  graceful degradation to transcript-only mode, the transcript store and the
  stop-and-save sequence.
- `tests/`: tests of the library.
- `app/`: the application around it (process and file I/O, the network, the
  database, timers, and the floating-point stages of diarization), which
  performs the steps the library decides.
