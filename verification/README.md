# rosin (Win32 layer)

The Windows platform layer of the rosin GUI toolkit, verified with Verus.

- `src/` decides what the native calls are asked to do: window geometry
  (`geometry`), the launcher and its message loop step (`launcher`), the
  thread gate and graphics state of a view (`view`), the window handle's
  requests (`handle`), the raw handle for graphics libraries (`raw_handle`),
  the UTF-16 window title (`title`), the window creation call (`create`),
  and the laws that hold across them (`laws`).
- `app/` makes the Win32 calls with those values and implements the traits
  of `raw-window-handle`.
