# rust-vid-streamer

Camera streaming programs built on GStreamer: a UDP/RTP streamer and its receiver,
an MP4 recorder, and two RTSP servers (one serving a launch line, one serving clients
from a shared-memory capture pipeline).

- `src/` is the verified library (Verus): command-line handling, the exact pipelines,
  bins and RTSP server setups each program builds (as plain values), the decimal
  rendering of the announced stream address, the session that decides when a playing
  pipeline stops, and the laws that tie the programs together (`src/laws.rs`,
  `src/session.rs`).
- `app/` is the executable: it reads the command line, turns the descriptions into
  GStreamer objects, runs the bus loop and the RTSP main loop, and handles Ctrl-C.
- `tests/` exercises the library on concrete values.
