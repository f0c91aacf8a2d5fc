# trueid

Face authentication for Linux: a daemon that captures camera frames, detects, aligns and
embeds faces, and accepts a user when a frame matches enough of the enrolled templates; a
control tool (`trueid-ctl`); and a PAM module that asks the daemon over a Unix socket.

## Layout

- `src/` — the verified library (Verus). Frames and their pixel conversions, V4L2 payload
  decoding (YUYV, grey, the handling of an MJPEG decoder's outcome, sensor orientation
  fixes), camera sessions and bursts (warmup discard, kept frames), the quorum rule
  over a burst of frames, the rules of `ping` / `enroll` / `verify` / `add_template`,
  configuration defaults, the IPC protocol and the decisions of the control tool and the
  PAM module.
- `tests/` — tests of the library.
- `app/` — the programs around it: YAML and JSON I/O, the Unix socket, V4L2 device ioctls, MJPEG decoding with
  `image` (guarded against decoder panics),
  ONNX inference (tract), face alignment and cosine matching (floating point), the CLI and
  the PAM entry points.
