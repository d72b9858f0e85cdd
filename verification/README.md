# relationship_simulator

A relationship simulator: a boyfriend, a girlfriend and an "other hot guy"
act on a shared health score, which is clamped into `0..=100`, until it
reaches zero.

- `src/` is the verified library (Verus): the clamped health update, the
  actors' events, the text of the log lines, the logger's filtering and
  formatting, and the decisions of the board firmware (random numbers from
  generator bytes, the actors' turns, the monitor).
- `app/main.rs` runs the threaded simulation on a desktop: threads, sleeps,
  the process-wide logger and printing.
- `tests/` exercises the library on concrete values.

The board firmware's runner (the async tasks, the LEDs, the button, the
hardware random number generator and the farewell panic) is not part of this
crate: it needs the RP2350's embassy crates, which target the microcontroller
and cannot be built here. It runs nowhere; only its decisions are here, in
`src/board.rs`, for such a runner to call.
