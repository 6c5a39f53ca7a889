# motion_cam

A motion-triggered camera recorder. Frames are read from RTSP streams or
Video4Linux devices, compared with the previous frame, and while motion lasts
they are encoded to a video file, which can then be uploaded to a bucket. A
web server lists the recordings and streams the cameras live over WebRTC.

## Layout

- `src/` — the verified library (Verus):
  - `config` — configuration values and their small decisions;
  - `frame` — colour spaces and the RGB/BGR/YUYV buffer conversions;
  - `frame_reader` — choice of reader, the four-byte-window YUYV path, PPM headers, device paths;
  - `motion` — the motion-detection state machine and its laws;
  - `video` — recording file names, encoder options, frame durations, upload choice;
  - `upload`, `repository`, `file_source`, `stream`, `web`, `frame_viewer`, `db` — the
    decisions and data of those parts;
  - `text` — character-level string helpers used by the above.
- `tests/` — tests of the library.
- `app/` — the program around the library: settings file, logging, capture,
  image differencing, encoding, upload and the web server.
