# pulsectl

Controllers for the playback (sink) and recording (source) side of a PulseAudio server.

- `src/` is the verified library. Each controller operation asks the server for something,
  waits until the server has answered, and then decides its result from what the server
  handed to the operation's callback and from how the wait ended. The deciding is done and
  proved here: `controllers` (the sink and source controllers), `reports` (how results follow
  from the reports), `waiting` (when a wait on the main loop goes on, ends or fails),
  `error`, `types`, and `laws` (what holds across operations and reports).
- `app/` connects to the server through `libpulse-binding`, sends the requests, runs the main
  loop, converts the server's structures into the library's types, and computes percentage
  volume changes, which need floating point.
