# LCRT live captions

Local, low-latency live captions for Linux desktops: PipeWire audio capture,
whisper.cpp speech-to-text on a worker thread, and a GTK4/libadwaita caption
overlay.

The library (`src/`) is verified with Verus. It holds the application's logic
and states it in `requires`/`ensures` contracts and laws:

- `audio`, `caption`, `transcription`, `ui`, `config`: audio chunks and
  sources, revisioned caption state, transcript updates and the adapter traits.
- `pipeline`: the capture → transcription → caption pipeline, including the
  order of adapter calls every run makes.
- `bridge`, `window`: the bounded caption bridge to the GTK thread and what the
  caption window shows.
- `capture`: PipeWire capture limits, buffer-chunk decoding, stream-state and
  terminal events, startup and shutdown of the capture worker, source
  discovery order, and the capture diagnostic's arguments.
- `stt`: Whisper limits, the rolling audio window, transcript assembly, the
  link to the transcription worker and its bookkeeping, and the offline
  tool's arguments, accepted WAV formats and reports.
- `cli`, `controller`, `demo`, `startup`: the application's command line, the
  controller that owns caption sessions, the window demo, and worker startup
  outcomes.
- `text`, `duration`: character-level text helpers and `Duration`.

`app/` is the program around it: one binary, installed as `lcrt`,
`lcrt-caption-ui`, `lcrt-whisper-transcribe` and `lcrt-pw-capture`, that does
the I/O, threads, GTK widgets, PipeWire and whisper.cpp calls, resampling and
other floating-point work, and hands plain values to the library.

`tests/` exercises the library on concrete values.
