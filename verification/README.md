# Vivido

The presenter side of Vivid Protocol 1.5: a window greets producers, leases contexts to them, takes
their surfaces, tracks and scenes, shows what they stream, and hands them input and dropped files.

* `src/` is the library, written and proved in Verus. It holds the rules: who is let in and with
  what authority, what a record means in the state that a session is in, what is answered, what is
  refused and why, how media is paced and timed, and what every loss leaves behind. Time is a number
  of microseconds that the caller passes, and nothing in it blocks.
* `tests/` runs the library against the protocol crate.
* `app/` is around it: sockets and threads, files, FFmpeg, audio devices. A window brings its scene
  as an implementation of `scene::Compositor`. It links FFmpeg, and its audio needs the system's
  audio library.

## How the library is laid out

| modules | what they decide |
| --- | --- |
| `identity`, `table`, `value`, `text`, `number`, `digest` | names, tables, wire values and arithmetic |
| `contract`, `context`, `lease`, `profile`, `establish` | authority: budgets, delegation, leases and greetings |
| `session`, `registry`, `actor`, `timeout`, `observe` | sessions and what is outstanding in them |
| `dispatch`, `control`, `reply` and the `*_control` modules, `delegate`, `playback_control` | control records and their answers |
| `opening`, `channel`, `track`, `media`, `raster`, `bucket`, `live`, `failure`, `metrics` | media channels |
| `lane`, `lane_control`, `input`, `hid` | interactive lanes and input |
| `anchor` | markers in terminal text |
| `audio`, `outputs`, `mic`, `decoder`, `ffmpeg` | what devices and decoders are told, and what is taken from them |
| `file_drop`, `drop_manager`, `drop_control`, `transfer`, `transfer_control` | dropped files |

What the library calls of other crates stands behind small functions whose contracts say what is
relied on. Results too long to state are named, and the contracts speak of the names.
