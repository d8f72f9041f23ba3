# titanium_os

A terminal desktop with a console, a settings tab, a snake game and a
calculator. The crate is written in Verus.

- `src/` is the verified library: the desktop's state machine
  (`desktop.rs`), the snake game (`games/snake.rs`), the calculator's input
  handling and expression splitting (`apps/calc.rs`), and the text each
  screen shows (`text.rs` holds decimal numbers, trimming, lines and joining).
  Each public function states its result over a mathematical view of its
  state; the laws of each module are public proof functions beside it.
- `app/` is the program around it: the terminal, the event loop, the host
  command runner, drawing with ratatui, the system monitor (sysinfo) and the
  calculator's floating-point arithmetic.
- `tests/` runs the library on concrete values.
