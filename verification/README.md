# linux_camera

A camera capture backend for Linux. What it decides is a library that Verus
verifies; what carries the decisions out is ordinary Rust around it.

- `src/` is the library: the worker that drives a camera as a state machine, the
  device and the device manager, format lists, stream settings, frames and errors.
  `src/laws.rs` states what holds of a worker over any course of events.
- `app/` holds the threads, the channels and the calls into `libcamera`, and adds
  the frame rates to format lists.
- `tests/` runs the library together with `x-media` and `x-variant`.

A worker names one action at a time. `app/thread.rs` performs it, reports what came
of it as an event, sends the answers that the worker gives, and goes on until the
worker leaves its loop.
