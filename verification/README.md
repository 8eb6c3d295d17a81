# msdftext

A small wgpu/winit renderer whose decisions are verified with Verus.

- `src/` is the verified library: the texture formats and surface
  capabilities as plain values (`formats`, `surface`), the choice of a surface
  configuration and the surface's configured state (`state`), the ranking of
  adapters (`adapter`), and the application's reactions to window-system
  events as a state machine (`events`, `lifecycle`).
- `app/` is the program: it creates the window and the GPU objects, turns the
  window system's events into the library's, and performs the actions the
  library returns.
- `tests/` runs the library on concrete values.
