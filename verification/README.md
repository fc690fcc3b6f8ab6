# karsus_ui

A small UI framework for a Raspberry Pi LCD HAT (128x128 panel, five-way
joystick, keys K1..K3), verified with Verus.

- `src/` is the verified library:
  - `widget`, `config`, `event`: widgets (`Text`, `Button`, `Row`, `Column`),
    button styles, themes and the events a page receives;
  - `layout`: the layout engine (`build_layout`) and geometric focus
    navigation (`move_focus`), with their laws (each button placed once, rows
    and columns filled exactly, focus only moves towards the pushed direction);
  - `app`: the navigation state (page stack, focus, redraw and exit flags) and
    the decisions of the run loop, with the laws of the page stack;
  - `render`: the list of drawing calls that shows a frame;
  - `lcd_types`, `lcd_device`, `lcd_error`, `bindings`, `color`: the display
    backend's rules (configuration, refresh regions, status codes, key
    decoding, C strings, the single-session guard).
- `app/` holds what touches the hardware: the driver's C interface, the
  display handle, the `Page` trait and the run loop, and a two page demo.
- `tests/` holds the tests of the library.
