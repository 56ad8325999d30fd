# inputspectrum

A terminal spectrum wall that key presses set in motion: each key excites a
band, faster typing gives stronger pulses, and the levels decay frame by
frame.

- `src/` is the library, verified with Verus: the key bindings and the state
  they change (`app`), the window of recent events (`events`), the mapping of
  keys to bands (`keys`), the command line (`cli`), the choice and filtering
  of system-wide input (`global_input`), the frame-loop decisions
  (`frame_loop`), the colours, glyphs and column ranges of the drawing (`ui`)
  and small string facilities (`text`).
- `app/` is the program around it: the terminal, the input capture threads,
  the drawing with ratatui, and the energy levels, which are real numbers.
- `tests/` exercises the library on concrete values.
