# vibewatch

The logic of a touch-screen watch that shows and drives remote terminal sessions, written and
proved in Verus.

- `src/` is the library. It computes on plain values: times are nanoseconds, what is drawn is a
  list of drawing operations, and every loop that waits for touches, messages or timers is a state
  machine that takes an event and gives back the next state and the things to do, in order.
  - `touch`, `lcd`: gestures, and transfers to the panel
  - `app`, `remote`: the shared state of the screens, the session list, the menus, the speech editor
    and the main loops
  - `ui`: lists, menus, the clock, the terminal view, the framebuffer
  - `protocol`, `json`, `setting`, `ble_provision`, `audio`, `network`, `ota`: messages,
    configuration, uploads and answers
  - `calendar`, `text`, `geometry`, `power`, `exio`, `util`, `new_jpg`, `background`, `boot`: the
    rest
- `tests/` runs the library on concrete values.
- `app/` is the firmware around it: drivers, radio, storage and drawing.

JSON values are read and written by `serde_json`, a terminal's screen is kept by `vt100`, its
columns and rows are measured by `embedded-graphics-terminal`, the display's picture is held by
`embedded-graphics`, and a GIF's header is read by `tinygif`; the contracts of these calls are
stated where they are made and not proved.
