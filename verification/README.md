# fht-compositor

The decision core of a tiling Wayland compositor, verified with Verus.

The library knows outputs, windows, surfaces and devices by numbers. Its functions take what the
outside world reported as plain values, and return what is to be done. Each of them has a contract
that says exactly what it decides, and Verus proves that the code keeps to it.

- `src/backend/` drives outputs: DRM devices with their connectors, CRTCs and modes, and the
  backends that draw into a window or nowhere.
- `src/output.rs` and `src/frame_clock.rs` are the redraw cycle of an output.
- `src/input/` turns events of input devices into actions.
- `src/focus.rs` decides who gets keys and where the pointer is.
- `src/handlers/` answers the requests of Wayland clients.
- `src/config/` is the configuration: its types, defaults and parsers.
- `src/ipc.rs` answers the commands of other programs.

Properties that span several functions are public proof functions, next to the functions that they
speak of.

`app/` is the program around the library: it parses arguments, reads clocks and files, and runs the
event loop. Floating point numbers are only computed with there; the library carries them by their
bits.
