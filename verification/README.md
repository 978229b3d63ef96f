# accountir

The terminal interface of an event-sourced, double-entry accounting program,
written in Verus. What the interface decides, computes and shows is stated in
contracts and proved; what it reads and sends is left to a thin layer of
ordinary Rust.

- `src/` is the verified library. `src/tui/app.rs` and its neighbours hold the
  state of the program and what each key does to it; `src/tui/views/` holds the
  screens, dialogs and import wizards; the modules beside `tui` hold text,
  money, dates, lists and the data that the screens are filled from.
- `tests/` runs the library on concrete values.
- `app/` draws what the library hands out on a terminal, and reads and writes
  files, databases and the network.

A screen's drawing is a value: each `draw` returns the rows, texts and styles
to be shown, so that contracts can speak of what the user sees. Functions that
need something from outside return a request, and a second function takes the
answer.

Money is counted in whole cents. Sums over user data wrap at 64 bits.
