# fswtch

The logic of FreeSWITCH modules written in Rust, verified with Verus.

- `src/` is the library. It never calls FreeSWITCH itself: an operation takes the C call as a function
  from plain values to plain values, and its contract says what that call is handed and what the
  operation returns for each answer. Buffering, framing, sample rate conversion, gain control, text
  handling, ownership and the routing of callbacks are all here.
- `app/` declares the functions of the FreeSWITCH core and hands them to the library. It holds what
  needs `unsafe`, floating point or `Drop`, and the macros that declare the callbacks of a module.
- `tests/` runs the library, with real noise suppression, resampling and SIMD arithmetic, and with
  small stand-ins for the core.
