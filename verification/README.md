# stream_client

A desktop streaming client: it shows another computer's screen with low latency and
controls it. `src/` holds its logic as a Verus library: what a function there returns or
changes is stated in its contract, and Verus proves it. Five functions from outside are
taken as they are: `try_send` and `try_recv` on the audio channel (the calls are recorded;
which answer comes, other threads decide), `str::to_lowercase`, `String::from_utf8_lossy`
and `String::push`. `app/` is the window around the library.

## Layout

| Modules of `src/` | What they decide |
| --- | --- |
| `time`, `text` | instants and spans; numbers and texts |
| `protocol`, `frames`, `codecs` | what is streamed, and what can be decoded |
| `addr`, `servers`, `discovery`, `cards`, `home` | addresses, known servers, and the list of them |
| `connection`, `session` | the course of a connection, its watchdogs and its errors |
| `playout`, `pacing`, `profile`, `pipeline`, `audio`, `channel` | when a frame is shown, and by which decoder it was made |
| `input`, `keys` | input packets, their repetition, and the keyboard |
| `capture`, `capture_frame`, `capture_hook`, `cursors` | who has the pointer, and which cursor is drawn |
| `gl_video`, `wgpu_video`, `dmabuf`, `videotoolbox`, `presenters`, `video_texture` | how a frame reaches the screen |
| `settings`, `labels`, `updates`, `window` | settings, texts, updates and panels |

`capture_laws` and `playout_laws` hold what is true of the pointer and of playout over
several calls. Such laws of the other modules stand beside the functions they are about.

Positions are a type parameter of the capture modules, and numbers with a fraction reach
the library as text: floating point is left to `app/`. Positions are worked out in
`app/geometry.rs`, and what is drawn is laid out where it is drawn. The clock, the
environment and the platform are arguments.

`app/backend.rs` names what the client needs from a wire format, decoders and a desktop.
`app/bare.rs` is a build without them. The window draws a decoder's own surfaces on Linux;
elsewhere it uploads the planes, and `videotoolbox` and the macOS parts of `presenters`
are for a window that is built with the system's own frameworks.
