# koom

The decision logic of the Koom screen recorder, verified with Verus.

- `src/` is the library. `status` holds the recording lifecycle (the
  `Recorder` and its transitions, status labels, error messages); `session`
  the configuration, session ids and file names; `finalize` and `media` how
  capture files become the saved video and its thumbnail (FFmpeg command
  lines); `ffmpeg` where FFmpeg is looked for; `recordings` the library
  listing (ids, thumbnails, newest-first order); `devices` the monitors and
  webcams offered; `capture` the capture loops' decisions; `audio` sample
  widening; `text` string building blocks.
- `app/` is the Tauri application around it: device capture, processes,
  files, the async command handlers and the serialisable copies of the
  library's types.
- `tests/` exercises the library on concrete values.
