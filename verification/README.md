# auv

The core of a small desktop media player, verified with Verus: what its threads do
next, when a frame is shown, how a seek goes through demuxer and decoders, what the
audio ring holds, what the command line asks for.

- `src/` is the library. Every function states in its contract what it returns or
  changes; properties that span several functions are public proof functions whose names
  start with `law_`.
- `app/` is the player around it: windows (FLTK, OpenGL), decoding (FFmpeg), audio
  output (CPAL), threads, files. It performs the actions that the library decides on and
  hands back what happened. Arithmetic in floating point is done there.
- `tests/` runs the library on concrete values.

| Module | Subject |
| --- | --- |
| `seek` | epochs, targets and the barrier of a seek |
| `demux` | the demuxer thread |
| `video`, `course` | the video thread, and the way of one frame to the window |
| `audio`, `ring` | the audio thread, and the ring between it and the device |
| `clock` | the master clock |
| `frame`, `render`, `screenshot` | frames, their colours, uploads and images |
| `cli`, `source`, `output`, `ui`, `window`, `text` | arguments, sources, devices, keys, titles, texts |

What is believed without proof: the contracts of the wrappers around `ringbuf` (in
`ring`) and `png` (in `screenshot`), and of `String::push` (in `text`).
