# winit_wayland

The decision logic of a Wayland windowing backend, verified with Verus.

- `src/` — the library. Each module works on plain values and states what it
  does in `requires`/`ensures`:
  - `popup`, `popup_tree`: positioner enums, popup settings and ids, the order
    in which popup trees are destroyed and which popup may hold a grab;
  - `keyboard`: keyboard focus, held modifiers and key repeat of a seat;
  - `dnd`: drag-and-drop sessions, drag start checks and the default drag icon;
  - `window`: sizes under configure events, size hints, decorations, cursor
    grabs, frame callbacks, titles;
  - `embed`, `extensions`, `toplevel_icon`: state kept for compositor
    extensions and toplevel icons.
- `tests/` — tests run against the compiled library.
- `app/` — the protocol side: conversions to and from the Wayland types, the
  pipes a drop is read through, the key-repeat timer and icon buffers.
