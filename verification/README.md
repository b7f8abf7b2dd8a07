# jay_compositor

The backend-side logic of the Jay wayland compositor, written in Verus and
proved against its contracts.

- `src/` is the verified library: display modes and connector state, input
  device settings, the async engine's dispatch and task queues, the wayland
  socket names, and the metal (DRM/libinput) backend's rules: scanout-buffer
  modifier negotiation and prime methods, the planning of atomic
  transactions (CRTC, plane and connector assignment, property changes),
  presentation and cursor programming, color-pipeline matching, connector
  events, leases, device bring-up, and the X11 backend's present and input
  rules.
- `app/` holds what surrounds it: the clap command line, error messages,
  process-wide tables, the socket system calls, and the loops that drive
  leases, connector transactions and device bring-up against the devices.
- `tests/` runs the library on concrete values.
