# FastPlay

The core of a desktop media player, verified with Verus, and the code around it
that touches the machine.

## The library (`src/`)

Everything that decides something is here, each function with a contract that
Verus proves.

- Playback: `session_model` describes what every command, event and tick does to
  a session. `session`, `session_events`, `session_playback` and `session_tick`
  carry it out, and `session_laws` states what follows for the session as a
  whole. `clock`, `clip_range`, `audio_controller`, `video_queue`, `drop_stats`,
  `overlay`, `viewport`, `timeline_ui`, `commands`, `events`, `state`,
  `generations`, `media` and `time` are its parts.
- Decoding: `worker`, `decode_thread`, `decode_run`, `decode_receive`,
  `decode_math`, `audio_batcher` and `interrupt` say which call comes next and
  what its outcome means.
- Devices and window: `audio_device`, `window`, `window_size`, `input_dispatch`,
  `swap_chain`, `video_plan`, `overlay_place`.
- Drawing: `bitmap`, `panels`, `bmp`.
- Files: `recent`, `review_markers`, `review_queue`, `play_queue`, `settings`,
  `media_ext`, `logging`, `crash_report`, on top of `fields`, `csv`, `decimal`,
  `text`, `lexical`, `natural`, `stable`, `calendar` and `winpath`.
- License: `license` and `license_api`.

Actions that only the machine can perform are values: the library returns them,
and takes back how they went.

What is believed without proof stands in two places. `text` states what three
functions of the standard library do, and `license_api` names what `serde_json`
reads in a JSON text.

## The machine (`app/`)

Files, network, threads, the Windows API and floating-point geometry. A program
supplies the graphics device, the font, the decoder, the subtitles and the shape of
the timeline through the traits `Graphics`, `TextPainter`, `Decoder`, `Subtitles`,
`TimelineGeometry` and `TimelineLayout`.

## Tests (`tests/`)

Scenarios on concrete values, run against the compiled library.
