# screen_observer

Screen observation with pluggable backends (a mock, a Screenpipe poller and a
native macOS observer), split in two:

- `src/` is the verified library. It holds the event types and every decision
  the observers make: which Screenpipe frames are new and what events they
  become, when a mock emits its events, which window is in front, what kind of
  event a window is, when a captured frame is worth reading, how recognized
  lines make the text, and when an observer starts and stops. Each public
  function has a contract, and the laws that relate several calls (no frame
  reported twice, the same window seen twice is a change of text, recognized
  text has no empty lines) are proof functions.
- `app/` is the asynchronous shell around it: the `ScreenObserver` trait,
  `create_observer`, the broadcast channels and tasks, HTTP requests and JSON
  decoding, image comparison (floating point), and the macOS calls for screen
  capture, Vision OCR, permissions and the window list.

OCR confidences are floating-point numbers; the library carries them as the
bit pattern of their `f64` and never computes with them.
