# bitclk

A minimal terminal clock toolkit: a live clock, a stopwatch and a countdown
timer drawn as binary, octal or hexadecimal digit groups in large block
characters, with generated or preset colour themes.

## Layout

- `src/` — the verified library (Verus). Every function carries a contract
  over mathematical models (`Seq<char>` for text, nanoseconds for time):
  - `text` — trimming, decimal and radix digits, `u64` parsing.
  - `color` — RGB colours, hex notation (`from_hex`, `to_hex`), ANSI
    true-colour escapes.
  - `color_engine` — harmony modes and their cycle.
  - `cli` — the argument model and the countdown-duration parser.
  - `app` — which view a command line selects.
  - `theme` — theme colours, the preset table, the runtime theme source.
  - `render` — block digits, the radix and decimal faces, screen layout.
  - `modes` — the clock, stopwatch and timer state machines (key presses and
    ticks in, new state and loop control out), and the theme preview text.
  - `terminal` — which terminal modes to undo on exit.
- `tests/` — tests of the library.
- `app/` — the program: `clap` argument parsing, the `crossterm` event loops
  and drawing, the system clock (`chrono`), and the floating-point colour
  math of theme generation (`palette`).
