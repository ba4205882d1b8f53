# x11_window

The decisions of a window on X11, verified with Verus: which requests go to the
server, in which order, and what the window's state is afterwards.

- `src/window.rs`: a window's state and the operations on it, among them
  unbounded mouse movement.
- `src/setup.rs`: opening a window, step by step.
- `src/sequence.rs`: requests on their way to the server, and what a failure
  does to those behind it.
- `src/handle.rs`, `src/flag.rs`: the two ends of a window that lives on a thread
  of its own, and the flags between them, each with one end that writes and one
  that reads.
- `src/laws.rs`: what holds across several operations.
- `src/values.rs`, `src/raw_handle.rs`: what is taken from `x11rb` and
  `raw_window_handle`, with what is trusted of it.
- `app/`: threads, the connection and floating-point scale factors. A program
  that uses it has to link Xlib, for instance by switching on the feature `xlib`
  of the crate `x11`.
