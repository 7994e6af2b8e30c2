# acpx-rs

`acpx-rs` keeps agents that speak the Agent Client Protocol running in the
background, one process per named session, so that a user can prompt the same
agent again and again without starting it anew.

- `src/` is the library, written in Verus: what every process decides, with
  contracts over mathematical models of its inputs and outputs, and laws that
  relate them. Functions named `law_...` state what holds of the library as a
  whole.
- `app/` is the program: the command line, files, sockets, processes and signals.
- `tests/` runs the library on concrete values.

What is not proved is stated in a few small functions: the `serde_json` crate
reads and writes JSON text (`src/json.rs`), the `dirs` crate finds the home
directory (`src/paths.rs`), and the standard library gives the time
(`src/clock.rs`) and two operations on strings (`src/text.rs`).
