# exwlshellev

The verified core of a Wayland shell toolkit for layer-shell surfaces,
session locks, popups, toplevels and input panels.

`src/` is checked by Verus. Each module holds one part of the event loop's
logic as functions from plain values to plain values, with contracts:

- `lock`: the session-lock lifecycle and the steps each event calls for.
- `refresh`, `ui_batch`: redraw requests, the present slot of a surface,
  and how one update of a widget tree is split.
- `units`, `unit_outputs`, `outputs`, `requests`, `start`: the windows of
  a shell, their outputs, what closes together, and what is created at
  start and when an output appears.
- `builder`, `settings`: the settings a program starts with, and those
  new popups, xdg windows and input panels are made with.
- `keyboard`, `touch`, `seat`, `pointer`, `scroll`: focus, key repeat,
  fingers and pointer, seat devices, and scroll frames.
- `ime`, `cursor`, `iced_input`, `toplevel`: input-method events, cursor
  shapes and names, key and button codes, and toplevel states.

`app/` holds what talks to the compositor: decoding wire arguments,
protocol requests, the connection and a client loop (`app/client.rs`),
and the floating-point side of scrolling.
